//! The device enumerator: finding keyboards in the input-device registry.
//!
//! The registry listing is line-oriented text grouped into per-device
//! stanzas. An identity line (prefix `I:`) opens a new stanza; a
//! handlers line that names both the generic-keyboard marker `kbd` and
//! the system-request marker `sysrq` marks the stanza's device as a
//! real keyboard; a handler-path line (prefix `H:`) names the kernel
//! event node as a whitespace-separated token beginning with `event`.
//! A stanza contributes `/dev/input/` followed by its event token to
//! the result exactly when both the keyboard marker and the node name
//! have been seen by the time the next stanza begins (or input ends).
//! No matching stanza simply yields an empty result; reading the
//! listing itself is the caller's concern.
//!
//! The parser works on raw bytes; lines are separated by the newline
//! byte and tokens by ASCII whitespace.

use vstd::prelude::*;

use crate::bytes::{bytes_contain, bytes_have_prefix, has_prefix, has_substring};

verus! {

/// ASCII whitespace, the token separator.
pub open spec fn is_space(b: u8) -> bool {
    b == 32 || b == 9 || b == 10 || b == 11 || b == 12 || b == 13
}

/// The marker of an identity line: `I:`.
pub open spec fn identity_marker() -> Seq<u8> {
    seq![73u8, 58u8]
}

/// The marker of a handler-path line: `H:`.
pub open spec fn handler_marker() -> Seq<u8> {
    seq![72u8, 58u8]
}

/// The handlers keyword: `Handlers=`.
pub open spec fn handlers_keyword() -> Seq<u8> {
    seq![72u8, 97u8, 110u8, 100u8, 108u8, 101u8, 114u8, 115u8, 61u8]
}

/// The generic-keyboard handler marker: `kbd`.
pub open spec fn kbd_marker() -> Seq<u8> {
    seq![107u8, 98u8, 100u8]
}

/// The system-request-key handler marker: `sysrq`.
pub open spec fn sysrq_marker() -> Seq<u8> {
    seq![115u8, 121u8, 115u8, 114u8, 113u8]
}

/// The prefix of an event-node token: `event`.
pub open spec fn event_marker() -> Seq<u8> {
    seq![101u8, 118u8, 101u8, 110u8, 116u8]
}

/// The directory the kernel event nodes live under: `/dev/input/`.
pub open spec fn dev_input_prefix() -> Seq<u8> {
    seq![47u8, 100u8, 101u8, 118u8, 47u8, 105u8, 110u8, 112u8, 117u8, 116u8, 47u8]
}

/// Whether `line[i..j]` is a whole whitespace-separated token: a
/// nonempty run of non-space bytes bounded by spaces or the line ends.
pub open spec fn is_token_at(line: Seq<u8>, i: int, j: int) -> bool {
    &&& 0 <= i < j <= line.len()
    &&& forall|k: int| i <= k < j ==> !is_space(#[trigger] line[k])
    &&& (i == 0 || is_space(line[i - 1]))
    &&& (j == line.len() || is_space(line[j]))
}

/// Whether `line[i..j]` is a token that begins with `event`.
pub open spec fn is_event_token_at(line: Seq<u8>, i: int, j: int) -> bool {
    is_token_at(line, i, j) && has_prefix(line.subrange(i, j), event_marker())
}

/// Whether the line holds any token beginning with `event`.
pub open spec fn has_event_token(line: Seq<u8>) -> bool {
    exists|i: int, j: int| #[trigger] is_event_token_at(line, i, j)
}

/// The leftmost token beginning with `event`.
#[verifier::opaque]
pub open spec fn first_event_token(line: Seq<u8>) -> Seq<u8> {
    let (i, j) = choose|i: int, j: int|
        is_event_token_at(line, i, j) && (forall|i2: int, j2: int|
            #[trigger] is_event_token_at(line, i2, j2) ==> i <= i2);
    line.subrange(i, j)
}

/// A token's end is determined by its start.
proof fn lemma_token_end_unique(line: Seq<u8>, i: int, j1: int, j2: int)
    requires
        is_token_at(line, i, j1),
        is_token_at(line, i, j2),
    ensures
        j1 == j2,
{
    if j1 < j2 {
        assert(!is_space(line[j1]));
        assert(is_space(line[j1]));
    }
    if j2 < j1 {
        assert(!is_space(line[j2]));
        assert(is_space(line[j2]));
    }
}

/// Scan from a non-space byte at `i` to the end of its token: the
/// index of the next space, or the line's end.
fn token_end(line: &[u8], i: usize) -> (j: usize)
    requires
        i < line@.len(),
        !is_space(line@[i as int]),
    ensures
        i < j <= line@.len(),
        forall|k: int| i <= k < j ==> !is_space(#[trigger] line@[k]),
        j == line@.len() || is_space(line@[j as int]),
{
    let n: usize = line.len();
    let mut j: usize = i + 1;
    while j < n
        invariant_except_break
            i < j <= n == line@.len(),
            forall|k: int| i <= k < j ==> !is_space(#[trigger] line@[k]),
        ensures
            i < j <= n == line@.len(),
            forall|k: int| i <= k < j ==> !is_space(#[trigger] line@[k]),
            j == n || is_space(line@[j as int]),
        decreases n - j,
    {
        if is_space_byte(line[j]) {
            break;
        }
        j += 1;
    }
    j
}

/// Exec mirror of [`is_space`].
fn is_space_byte(b: u8) -> (r: bool)
    ensures
        r == is_space(b),
{
    b == 32 || b == 9 || b == 10 || b == 11 || b == 12 || b == 13
}

/// Find the leftmost whitespace-separated token beginning with `event`
/// and hand back a copy of it, or report that the line has none.
#[verifier::loop_isolation(false)]
pub fn find_event_token(line: &[u8]) -> (r: Option<Vec<u8>>)
    ensures
        match r {
            Option::Some(t) => has_event_token(line@) && t@ == first_event_token(line@),
            Option::None => !has_event_token(line@),
        },
{
    let event: [u8; 5] = [101u8, 118u8, 101u8, 110u8, 116u8];
    let event_slice: &[u8] = event.as_slice();
    assert(event_slice@ =~= event_marker());
    let n: usize = line.len();
    let mut i: usize = 0;
    while i < n
        invariant
            i <= n == line@.len(),
            forall|i2: int, j2: int| i2 < i ==> !is_event_token_at(line@, i2, j2),
        decreases n - i,
    {
        let starts_token = !is_space_byte(line[i]) && (i == 0 || is_space_byte(line[i - 1]));
        if starts_token {
            // Find the token's end: the next space or the line's end.
            let j: usize = token_end(line, i);
            assert(is_token_at(line@, i as int, j as int));
            let token: &[u8] = &line[i..j];
            assert(token@ == line@.subrange(i as int, j as int));
            if bytes_have_prefix(token, event_slice) {
                assert(is_event_token_at(line@, i as int, j as int));
                proof {
                    reveal(first_event_token);
                    assert(forall|i2: int, j2: int|
                        #[trigger] is_event_token_at(line@, i2, j2) ==> i <= i2);
                    let (ci, cj) = choose|ci: int, cj: int|
                        is_event_token_at(line@, ci, cj) && (forall|i2: int, j2: int|
                            #[trigger] is_event_token_at(line@, i2, j2) ==> ci <= i2);
                    assert(ci <= i as int);
                    assert(i as int <= ci);
                    lemma_token_end_unique(line@, ci, cj, j as int);
                    assert(first_event_token(line@) == line@.subrange(i as int, j as int));
                }
                let mut t: Vec<u8> = Vec::new();
                let mut k: usize = i;
                while k < j
                    invariant
                        i <= k <= j <= line@.len(),
                        t@ == line@.subrange(i as int, k as int),
                    decreases j - k,
                {
                    t.push(line[k]);
                    k += 1;
                    assert(t@ =~= line@.subrange(i as int, k as int));
                }
                return Some(t);
            }
            // No other token can start inside this one, and this one
            // does not match: rule out every start before j.
            proof {
                assert forall|i2: int, j2: int| i2 < j implies !is_event_token_at(
                    line@,
                    i2,
                    j2,
                ) by {
                    if i as int <= i2 && i2 < j && is_event_token_at(line@, i2, j2) {
                        if i2 == i {
                            lemma_token_end_unique(line@, i2, j2, j as int);
                            assert(has_prefix(line@.subrange(i as int, j as int), event_marker()));
                        } else {
                            // Inside the run: the byte before i2 is not
                            // a space, so no token starts there.
                            assert(!is_space(line@[i2 - 1]));
                        }
                    }
                }
            }
            i = j;
        } else {
            proof {
                assert forall|j2: int| !is_event_token_at(line@, i as int, j2) by {
                    if is_event_token_at(line@, i as int, j2) {
                        assert(!is_space(line@[i as int]));
                    }
                }
            }
            i += 1;
        }
    }
    assert(!has_event_token(line@)) by {
        if has_event_token(line@) {
            let (i2, j2) = choose|i2: int, j2: int| #[trigger] is_event_token_at(line@, i2, j2);
            assert(i2 < n);
        }
    }
    None
}

/// The parser's state between lines: the devices found so far, the
/// event node of the stanza being read (if its handler line has been
/// seen), whether the stanza is a keyboard, and the bytes of the line
/// being gathered.
pub ghost struct ScanState {
    pub devices: Seq<Seq<u8>>,
    pub current: Option<Seq<u8>>,
    pub is_kbd: bool,
    pub line: Seq<u8>,
}

/// The parser before any input.
pub open spec fn scan_init() -> ScanState {
    ScanState { devices: seq![], current: Option::None, is_kbd: false, line: seq![] }
}

/// Close the stanza: its device node joins the result exactly when the
/// stanza had both the keyboard markers and an event node.
pub open spec fn stanza_flush(st: ScanState) -> ScanState {
    ScanState {
        devices: if st.is_kbd && st.current is Some {
            st.devices.push(st.current->Some_0)
        } else {
            st.devices
        },
        current: Option::None,
        is_kbd: false,
        ..st
    }
}

/// One complete line's effect on the parser: an identity line closes
/// the previous stanza; a handlers line naming both `kbd` and `sysrq`
/// marks the stanza a keyboard; a handler-path line with an event
/// token names the device node.
pub open spec fn scan_line(st: ScanState, line: Seq<u8>) -> ScanState {
    let st1 = if has_prefix(line, identity_marker()) {
        stanza_flush(st)
    } else {
        st
    };
    let st2 = if has_substring(line, handlers_keyword()) && has_substring(line, kbd_marker())
        && has_substring(line, sysrq_marker()) {
        ScanState { is_kbd: true, ..st1 }
    } else {
        st1
    };
    if has_prefix(line, handler_marker()) && has_event_token(line) {
        ScanState { current: Option::Some(dev_input_prefix() + first_event_token(line)), ..st2 }
    } else {
        st2
    }
}

/// One byte's effect: a newline completes the gathered line and runs
/// the line rules; any other byte joins the gathered line.
pub open spec fn scan_byte(st: ScanState, b: u8) -> ScanState {
    if b == 10u8 {
        let st1 = scan_line(st, st.line);
        ScanState { line: seq![], ..st1 }
    } else {
        ScanState { line: st.line.push(b), ..st }
    }
}

/// A whole byte stream's effect, front to back.
pub open spec fn scan_bytes(st: ScanState, s: Seq<u8>) -> ScanState
    decreases s.len(),
{
    if s.len() == 0 {
        st
    } else {
        scan_byte(scan_bytes(st, s.drop_last()), s.last())
    }
}

/// The device paths the whole listing yields: every byte scanned, the
/// final unterminated line processed, the last stanza closed.
pub open spec fn parse_devices(s: Seq<u8>) -> Seq<Seq<u8>> {
    let st = scan_bytes(scan_init(), s);
    stanza_flush(scan_line(st, st.line)).devices
}

/// Does the line begin with the identity marker `I:`?
fn is_identity_line(line: &Vec<u8>) -> (r: bool)
    ensures
        r == has_prefix(line@, identity_marker()),
{
    let identity: [u8; 2] = [73u8, 58u8];
    let identity_slice: &[u8] = identity.as_slice();
    assert(identity_slice@ =~= identity_marker());
    bytes_have_prefix(line.as_slice(), identity_slice)
}

/// Does the line declare a keyboard: a handlers keyword together with
/// both the `kbd` and the `sysrq` markers?
fn is_keyboard_line(line: &Vec<u8>) -> (r: bool)
    ensures
        r == (has_substring(line@, handlers_keyword()) && has_substring(line@, kbd_marker())
            && has_substring(line@, sysrq_marker())),
{
    let handlers: [u8; 9] = [72u8, 97u8, 110u8, 100u8, 108u8, 101u8, 114u8, 115u8, 61u8];
    let handlers_slice: &[u8] = handlers.as_slice();
    assert(handlers_slice@ =~= handlers_keyword());
    let kbd_word: [u8; 3] = [107u8, 98u8, 100u8];
    let kbd_slice: &[u8] = kbd_word.as_slice();
    assert(kbd_slice@ =~= kbd_marker());
    let sysrq: [u8; 5] = [115u8, 121u8, 115u8, 114u8, 113u8];
    let sysrq_slice: &[u8] = sysrq.as_slice();
    assert(sysrq_slice@ =~= sysrq_marker());
    bytes_contain(line.as_slice(), handlers_slice) && bytes_contain(line.as_slice(), kbd_slice)
        && bytes_contain(line.as_slice(), sysrq_slice)
}

/// The device path a handler-path line names, if it is one and carries
/// an event token: `/dev/input/` followed by the token.
fn handler_device_path(line: &Vec<u8>) -> (r: Option<Vec<u8>>)
    ensures
        match r {
            Option::Some(p) => has_prefix(line@, handler_marker()) && has_event_token(line@)
                && p@ == dev_input_prefix() + first_event_token(line@),
            Option::None => !(has_prefix(line@, handler_marker()) && has_event_token(line@)),
        },
{
    let handler: [u8; 2] = [72u8, 58u8];
    let handler_slice: &[u8] = handler.as_slice();
    assert(handler_slice@ =~= handler_marker());
    if !bytes_have_prefix(line.as_slice(), handler_slice) {
        return Option::None;
    }
    match find_event_token(line.as_slice()) {
        Option::Some(token) => {
            let dir: [u8; 11] = [47u8, 100u8, 101u8, 118u8, 47u8, 105u8, 110u8, 112u8, 117u8,
                116u8, 47u8];
            let dir_slice: &[u8] = dir.as_slice();
            assert(dir_slice@ =~= dev_input_prefix());
            let mut path: Vec<u8> = Vec::new();
            path.extend_from_slice(dir_slice);
            assert(path@ =~= dev_input_prefix());
            path.extend_from_slice(token.as_slice());
            assert(path@ =~= dev_input_prefix() + token@);
            Option::Some(path)
        },
        Option::None => Option::None,
    }
}

/// Whether the executable parser variables show exactly the devices,
/// stanza node and keyboard mark of a ghost parser state.
pub open spec fn state_matches(devices: Seq<Vec<u8>>, current: Option<Vec<u8>>, kbd: bool,
    st: ScanState) -> bool {
    &&& devices.len() == st.devices.len()
    &&& forall|k: int| 0 <= k < devices.len() ==> (#[trigger] devices[k])@ == st.devices[k]
    &&& match current {
        Option::Some(c) => st.current == Option::Some(c@),
        Option::None => st.current is None,
    }
    &&& kbd == st.is_kbd
}

/// Close the running stanza: push its device if it was a keyboard with
/// a node, and reset the per-stanza state.
fn close_stanza(devices: &mut Vec<Vec<u8>>, current: &mut Option<Vec<u8>>, kbd: &mut bool,
    Ghost(st): Ghost<ScanState>)
    requires
        state_matches(old(devices)@, *old(current), *old(kbd), st),
    ensures
        state_matches(final(devices)@, *final(current), *final(kbd), stanza_flush(st)),
{
    if let Option::Some(dev) = current.take() {
        if *kbd {
            devices.push(dev);
        }
    }
    *kbd = false;
}

/// Exec line rules: one line applied to the running parser state.
fn apply_line(devices: &mut Vec<Vec<u8>>, current: &mut Option<Vec<u8>>, kbd: &mut bool,
    line: &Vec<u8>, Ghost(st): Ghost<ScanState>)
    requires
        state_matches(old(devices)@, *old(current), *old(kbd), st),
    ensures
        state_matches(final(devices)@, *final(current), *final(kbd), scan_line(st, line@)),
{
    if is_identity_line(line) {
        close_stanza(devices, current, kbd, Ghost(st));
    }
    if is_keyboard_line(line) {
        *kbd = true;
    }
    match handler_device_path(line) {
        Option::Some(p) => {
            *current = Option::Some(p);
        },
        Option::None => {},
    }
}

/// Scan the whole registry listing and return the device paths of the
/// stanzas that declare a keyboard: `/dev/input/` followed by each
/// matching stanza's event token, in listing order. An empty result is
/// an answer, not an error.
pub fn keyboard_device_paths(content: &[u8]) -> (devices: Vec<Vec<u8>>)
    ensures
        devices@.len() == parse_devices(content@).len(),
        forall|k: int| 0 <= k < devices@.len() ==> (#[trigger] devices@[k])@ == parse_devices(
            content@,
        )[k],
{
    let n: usize = content.len();
    let mut devices: Vec<Vec<u8>> = Vec::new();
    let mut current: Option<Vec<u8>> = Option::None;
    let mut kbd: bool = false;
    let mut line: Vec<u8> = Vec::new();
    let mut i: usize = 0;
    while i < n
        invariant
            i <= n == content@.len(),
            state_matches(devices@, current, kbd, scan_bytes(scan_init(), content@.take(i as int))),
            line@ == scan_bytes(scan_init(), content@.take(i as int)).line,
        decreases n - i,
    {
        let ghost st = scan_bytes(scan_init(), content@.take(i as int));
        let b = content[i];
        proof {
            assert(content@.take(i + 1).drop_last() =~= content@.take(i as int));
            assert(content@.take(i + 1).last() == content@[i as int]);
        }
        if b == 10 {
            apply_line(&mut devices, &mut current, &mut kbd, &line, Ghost(st));
            line = Vec::new();
        } else {
            line.push(b);
        }
        i += 1;
    }
    proof {
        assert(content@.take(n as int) =~= content@);
    }
    let ghost st = scan_bytes(scan_init(), content@);
    apply_line(&mut devices, &mut current, &mut kbd, &line, Ghost(st));
    if kbd {
        if let Option::Some(dev) = current {
            devices.push(dev);
            return devices;
        }
    }
    devices
}

} // verus!
