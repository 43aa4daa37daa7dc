//! The remote-control wire protocol.
//!
//! A remote client sends one encoded command per connection; the whole
//! payload is decoded into one [`AppEvent`] and handled exactly as a locally
//! issued command. The format is a small object notation: a bare command
//! name for commands without fields (`NextProc`), or a one-field object in
//! canonical form (`{"AddProc":{"cmd":"echo hi"}}`) exactly as
//! [`encode_event`] produces it. Surrounding whitespace is allowed; the
//! payload must be ASCII; a malformed payload decodes to nothing and leaves
//! the state untouched.
//!
//! The grammar is deliberately the canonical encoding and nothing wider:
//! each command has exactly one spelling, produced by [`encode_event`] and
//! consumed here, which is what lets decoding be proved exact both ways —
//! whatever is accepted is the payload's canonical command, and every
//! payload that is the canonical encoding of a command is accepted. A
//! client that pretty-prints the object (spaces after the colons, say) must
//! use the canonical spelling instead; nothing in the command set needs the
//! wider form.

use vstd::prelude::*;

use crate::app::{handle_event, handles};
use crate::event::{AppEvent, CopyMove, Effect, LoopAction};
use crate::state::State;
use crate::text::{dec_chars, digit_char, push_char};

verus! {

/// Whitespace accepted around a payload.
pub open spec fn is_ws(c: char) -> bool {
    c == ' ' || c == '\t' || c == '\n' || c == '\r'
}

/// The payload with leading whitespace removed.
pub open spec fn ltrim(s: Seq<char>) -> Seq<char>
    decreases s.len(),
{
    if s.len() > 0 && is_ws(s[0]) {
        ltrim(s.drop_first())
    } else {
        s
    }
}

/// The payload with trailing whitespace removed.
pub open spec fn rtrim(s: Seq<char>) -> Seq<char>
    decreases s.len(),
{
    if s.len() > 0 && is_ws(s[s.len() - 1]) {
        rtrim(s.drop_last())
    } else {
        s
    }
}

/// The payload with surrounding whitespace removed.
pub open spec fn trim(s: Seq<char>) -> Seq<char> {
    rtrim(ltrim(s))
}

/// Whether a command string may stand inside quotes unescaped.
pub open spec fn plain_text(s: Seq<char>) -> bool {
    forall|i: int|
        0 <= i < s.len() ==> (#[trigger] s[i]) != '"' && s[i] != '\\' && ' ' <= s[i] && s[i]
            <= '~'
}

/// The canonical name of each command without fields; empty for the others.
pub open spec fn unit_name(e: AppEvent) -> Seq<char> {
    match e {
        AppEvent::QuitOrAsk => "QuitOrAsk"@,
        AppEvent::Quit => "Quit"@,
        AppEvent::ForceQuit => "ForceQuit"@,
        AppEvent::ToggleFocus => "ToggleFocus"@,
        AppEvent::FocusProcs => "FocusProcs"@,
        AppEvent::FocusTerm => "FocusTerm"@,
        AppEvent::Zoom => "Zoom"@,
        AppEvent::NextProc => "NextProc"@,
        AppEvent::PrevProc => "PrevProc"@,
        AppEvent::StartProc => "StartProc"@,
        AppEvent::TermProc => "TermProc"@,
        AppEvent::KillProc => "KillProc"@,
        AppEvent::RestartProc => "RestartProc"@,
        AppEvent::ForceRestartProc => "ForceRestartProc"@,
        AppEvent::ScrollUp => "ScrollUp"@,
        AppEvent::ScrollDown => "ScrollDown"@,
        AppEvent::ShowAddProc => "ShowAddProc"@,
        AppEvent::ShowRemoveProc => "ShowRemoveProc"@,
        AppEvent::CopyModeEnter => "CopyModeEnter"@,
        AppEvent::CopyModeLeave => "CopyModeLeave"@,
        AppEvent::CopyModeEnd => "CopyModeEnd"@,
        AppEvent::CopyModeCopy => "CopyModeCopy"@,
        _ => Seq::empty(),
    }
}

/// The canonical name of a copy-mode direction.
pub open spec fn dir_name(d: CopyMove) -> Seq<char> {
    match d {
        CopyMove::Up => "Up"@,
        CopyMove::Down => "Down"@,
        CopyMove::Left => "Left"@,
        CopyMove::Right => "Right"@,
    }
}

/// A one-field object: `{"name":{"field":body}}`.
pub open spec fn obj_shape(name: Seq<char>, field: Seq<char>, body: Seq<char>) -> Seq<char> {
    "{\""@ + name + "\":{\""@ + field + "\":"@ + body + "}}"@
}

/// A value inside one pair of quotes.
pub open spec fn quoted(v: Seq<char>) -> Seq<char> {
    "\""@ + v + "\""@
}

/// The canonical encoding of a command carrying one string field.
pub open spec fn str_obj(name: Seq<char>, field: Seq<char>, value: Seq<char>) -> Seq<char> {
    "{\""@ + name + "\":{\""@ + field + "\":\""@ + value + "\"}}"@
}

/// The canonical encoding of a command carrying one numeric field.
pub open spec fn num_obj(name: Seq<char>, field: Seq<char>, value: int) -> Seq<char> {
    "{\""@ + name + "\":{\""@ + field + "\":"@ + dec_chars(value as nat) + "}}"@
}

/// Whether a command can travel over the wire: everything except nested
/// batches and raw key presses.
pub open spec fn encodable(e: AppEvent) -> bool {
    match e {
        AppEvent::Batch { .. } => false,
        AppEvent::SendKey { .. } => false,
        AppEvent::AddProc { cmd } => plain_text(cmd@),
        _ => true,
    }
}

/// The canonical wire encoding of a command.
pub open spec fn canon(e: AppEvent) -> Seq<char> {
    match e {
        AppEvent::AddProc { cmd } => str_obj("AddProc"@, "cmd"@, cmd@),
        AppEvent::RemoveProc { id } => num_obj("RemoveProc"@, "id"@, id as int),
        AppEvent::SelectProc { index } => num_obj("SelectProc"@, "index"@, index as int),
        AppEvent::ScrollUpLines { n } => num_obj("ScrollUpLines"@, "n"@, n as int),
        AppEvent::ScrollDownLines { n } => num_obj("ScrollDownLines"@, "n"@, n as int),
        AppEvent::CopyModeMove { dir } => str_obj("CopyModeMove"@, "dir"@, dir_name(dir)),
        _ => unit_name(e),
    }
}

/// Encodes a command for the wire in canonical form.
pub fn encode_event(e: &AppEvent) -> (r: Option<String>)
    ensures
        encodable(*e) ==> match r {
            Some(s) => s@ == canon(*e),
            None => false,
        },
        !encodable(*e) ==> r is None,
{
    match e {
        AppEvent::Batch { .. } => None,
        AppEvent::SendKey { .. } => None,
        AppEvent::AddProc { cmd } => {
            if str_is_plain(cmd.as_str()) {
                let mut s = String::from_str("{\"AddProc\":{\"cmd\":\"");
                s.append(cmd.as_str());
                s.append("\"}}");
                proof {
                    reveal_strlit("{\"AddProc\":{\"cmd\":\"");
                    reveal_strlit("{\"");
                    reveal_strlit("AddProc");
                    reveal_strlit("\":{\"");
                    reveal_strlit("cmd");
                    reveal_strlit("\":\"");
                    reveal_strlit("\"}}");
                    assert(s@ =~= canon(*e));
                }
                Some(s)
            } else {
                None
            }
        },
        AppEvent::RemoveProc { id } => Some(encode_num_obj("RemoveProc", "id", *id)),
        AppEvent::SelectProc { index } => Some(encode_num_obj("SelectProc", "index", *index)),
        AppEvent::ScrollUpLines { n } => Some(encode_num_obj("ScrollUpLines", "n", *n)),
        AppEvent::ScrollDownLines { n } => Some(encode_num_obj("ScrollDownLines", "n", *n)),
        AppEvent::CopyModeMove { dir } => {
            let mut s = String::from_str("{\"CopyModeMove\":{\"dir\":\"");
            match dir {
                CopyMove::Up => s.append("Up"),
                CopyMove::Down => s.append("Down"),
                CopyMove::Left => s.append("Left"),
                CopyMove::Right => s.append("Right"),
            }
            s.append("\"}}");
            proof {
                reveal_strlit("{\"CopyModeMove\":{\"dir\":\"");
                reveal_strlit("{\"");
                reveal_strlit("CopyModeMove");
                reveal_strlit("\":{\"");
                reveal_strlit("dir");
                reveal_strlit("\":\"");
                reveal_strlit("\"}}");
                assert(s@ =~= canon(*e));
            }
            Some(s)
        },
        _ => {
            let s = unit_string(e);
            Some(s)
        },
    }
}

/// Renders a command with one numeric field in canonical form.
fn encode_num_obj(name: &str, field: &str, value: usize) -> (s: String)
    ensures
        s@ == num_obj(name@, field@, value as int),
{
    let mut s = String::from_str("{\"");
    s.append(name);
    s.append("\":{\"");
    s.append(field);
    s.append("\":");
    push_dec_usize(&mut s, value);
    s.append("}}");
    proof {
        reveal_strlit("{\"");
        reveal_strlit("\":{\"");
        reveal_strlit("\":");
        reveal_strlit("}}");
        assert(s@ =~= num_obj(name@, field@, value as int));
    }
    s
}

/// Appends the decimal rendering of a machine word.
fn push_dec_usize(s: &mut String, n: usize)
    ensures
        final(s)@ == old(s)@ + dec_chars(n as nat),
    decreases n,
{
    if n >= 10 {
        push_dec_usize(s, n / 10);
        let d = crate::text::digit_of((n % 10) as u16);
        push_char(s, d);
        proof {
            assert(s@ =~= old(s)@ + dec_chars(n as nat));
        }
    } else {
        let d = crate::text::digit_of(n as u16);
        push_char(s, d);
        proof {
            assert(s@ =~= old(s)@ + dec_chars(n as nat));
        }
    }
}

/// The name of a command without fields, as a string.
fn unit_string(e: &AppEvent) -> (s: String)
    ensures
        s@ == unit_name(*e),
{
    match e {
        AppEvent::QuitOrAsk => String::from_str("QuitOrAsk"),
        AppEvent::Quit => String::from_str("Quit"),
        AppEvent::ForceQuit => String::from_str("ForceQuit"),
        AppEvent::ToggleFocus => String::from_str("ToggleFocus"),
        AppEvent::FocusProcs => String::from_str("FocusProcs"),
        AppEvent::FocusTerm => String::from_str("FocusTerm"),
        AppEvent::Zoom => String::from_str("Zoom"),
        AppEvent::NextProc => String::from_str("NextProc"),
        AppEvent::PrevProc => String::from_str("PrevProc"),
        AppEvent::StartProc => String::from_str("StartProc"),
        AppEvent::TermProc => String::from_str("TermProc"),
        AppEvent::KillProc => String::from_str("KillProc"),
        AppEvent::RestartProc => String::from_str("RestartProc"),
        AppEvent::ForceRestartProc => String::from_str("ForceRestartProc"),
        AppEvent::ScrollUp => String::from_str("ScrollUp"),
        AppEvent::ScrollDown => String::from_str("ScrollDown"),
        AppEvent::ShowAddProc => String::from_str("ShowAddProc"),
        AppEvent::ShowRemoveProc => String::from_str("ShowRemoveProc"),
        AppEvent::CopyModeEnter => String::from_str("CopyModeEnter"),
        AppEvent::CopyModeLeave => String::from_str("CopyModeLeave"),
        AppEvent::CopyModeEnd => String::from_str("CopyModeEnd"),
        AppEvent::CopyModeCopy => String::from_str("CopyModeCopy"),
        _ => String::new(),
    }
}


/// Compares two strings character by character.
fn str_eq(a: &str, b: &str) -> (r: bool)
    ensures
        r == (a@ == b@),
{
    let la = a.unicode_len();
    let lb = b.unicode_len();
    if la != lb {
        proof {
            assert(a@ != b@);
        }
        return false;
    }
    let mut i: usize = 0;
    while i < la
        invariant
            i <= la,
            la == a@.len(),
            la == b@.len(),
            forall|k: int| 0 <= k < i ==> a@[k] == b@[k],
        decreases la - i,
    {
        if a.get_char(i) != b.get_char(i) {
            return false;
        }
        i += 1;
    }
    proof {
        assert(a@ =~= b@);
    }
    true
}

/// Strips surrounding whitespace from an ASCII payload.
fn trim_str<'a>(s: &'a str) -> (t: &'a str)
    requires
        s.is_ascii(),
    ensures
        t@ == trim(s@),
        t.is_ascii(),
{
    let len = s.unicode_len();
    let mut from: usize = 0;
    proof {
        assert(s@.skip(0) =~= s@);
    }
    while from < len && ws_at(s, from)
        invariant
            from <= len,
            len == s@.len(),
            s.is_ascii(),
            ltrim(s@) == ltrim(s@.skip(from as int)),
        decreases len - from,
    {
        proof {
            assert(s@.skip(from as int)[0] == s@[from as int]);
            assert(s@.skip(from as int).drop_first() =~= s@.skip(from as int + 1));
        }
        from += 1;
    }
    proof {
        if from < len {
            assert(s@.skip(from as int)[0] == s@[from as int]);
        }
        assert(ltrim(s@.skip(from as int)) == s@.skip(from as int));
        assert(s@.skip(from as int) =~= s@.subrange(from as int, len as int));
    }
    let mut to: usize = len;
    while to > from && ws_at(s, to - 1)
        invariant
            from <= to <= len,
            len == s@.len(),
            s.is_ascii(),
            trim(s@) == rtrim(s@.subrange(from as int, to as int)),
        decreases to,
    {
        proof {
            assert(s@.subrange(from as int, to as int).last() == s@[to as int - 1]);
            assert(s@.subrange(from as int, to as int).drop_last() =~= s@.subrange(
                from as int,
                to as int - 1,
            ));
        }
        to -= 1;
    }
    let r = s.substring_ascii(from, to);
    proof {
        if to > from {
            assert(s@.subrange(from as int, to as int).last() == s@[to as int - 1]);
        }
        assert(rtrim(s@.subrange(from as int, to as int)) == s@.subrange(from as int, to as int));
        assert(r@ == trim(s@));
    }
    r
}

/// Whether the character at `i` is payload whitespace.
fn ws_at(s: &str, i: usize) -> (r: bool)
    requires
        i < s@.len(),
    ensures
        r == is_ws(s@[i as int]),
{
    let c = s.get_char(i);
    c == ' ' || c == '\t' || c == '\n' || c == '\r'
}

/// The decimal value of a digit string.
pub open spec fn dec_val(s: Seq<char>) -> int
    decreases s.len(),
{
    if s.len() == 0 {
        0
    } else {
        dec_val(s.drop_last()) * 10 + (s.last() as int - 48)
    }
}

/// The decimal rendering of a number is nonempty and all digits.
proof fn lemma_dec_chars_digits(n: nat)
    ensures
        dec_chars(n).len() >= 1,
        forall|i: int|
            0 <= i < dec_chars(n).len() ==> 48 <= (#[trigger] dec_chars(n)[i]) as int <= 57,
    decreases n,
{
    if n >= 10 {
        lemma_dec_chars_digits(n / 10);
        assert forall|i: int|
            0 <= i < dec_chars(n).len() implies 48 <= (#[trigger] dec_chars(n)[i]) as int
            <= 57 by {
            if i < dec_chars(n).len() - 1 {
                assert(dec_chars(n)[i] == dec_chars(n / 10)[i]);
            }
        }
    }
}

/// Reading back the decimal rendering yields the number.
proof fn lemma_dec_roundtrip(n: nat)
    ensures
        dec_val(dec_chars(n)) == n,
    decreases n,
{
    if n < 10 {
        assert(dec_val(Seq::<char>::empty()) == 0);
        assert(dec_chars(n).drop_last() =~= Seq::<char>::empty());
        assert(dec_chars(n).last() == digit_char(n));
        assert(digit_char(n) as int - 48 == n);
    } else {
        lemma_dec_roundtrip(n / 10);
        assert(dec_chars(n).drop_last() =~= dec_chars(n / 10));
        assert(dec_chars(n).last() == digit_char(n % 10));
        assert(digit_char(n % 10) as int - 48 == n % 10);
    }
}

/// Every prefix of a decimal rendering reads back at most the number.
proof fn lemma_dec_prefix(n: nat, i: int)
    requires
        0 <= i <= dec_chars(n).len(),
    ensures
        dec_val(dec_chars(n).take(i)) <= n,
    decreases n,
{
    if i == dec_chars(n).len() {
        assert(dec_chars(n).take(i) =~= dec_chars(n));
        lemma_dec_roundtrip(n);
    } else if i == 0 {
        assert(dec_chars(n).take(0) =~= Seq::<char>::empty());
    } else if n >= 10 {
        assert(dec_chars(n).take(i) =~= dec_chars(n / 10).take(i));
        lemma_dec_prefix(n / 10, i);
    }
}

/// Reads a decimal machine word; it succeeds with the digits' value, and a
/// run it rejects — empty, a stray character, or an overflow — renders no
/// machine word.
fn parse_usize(s: &str) -> (r: Option<usize>)
    ensures
        match r {
            Some(v) => s@.len() > 0 && v as int == dec_val(s@),
            None => forall|n: usize| s@ != dec_chars(n as nat),
        },
{
    let len = s.unicode_len();
    if len == 0 {
        proof {
            assert forall|n: usize| s@ != dec_chars(n as nat) by {
                lemma_dec_chars_digits(n as nat);
            }
        }
        return None;
    }
    let mut v: usize = 0;
    proof {
        assert(s@.take(0) =~= Seq::<char>::empty());
    }
    let mut i: usize = 0;
    while i < len
        invariant
            i <= len,
            len == s@.len(),
            v as int == dec_val(s@.take(i as int)),
        decreases len - i,
    {
        let c = s.get_char(i);
        proof {
            assert(s@.take(i as int + 1).drop_last() =~= s@.take(i as int));
            assert(s@.take(i as int + 1).last() == s@[i as int]);
        }
        if c < '0' || c > '9' {
            proof {
                assert forall|n: usize| s@ != dec_chars(n as nat) by {
                    if s@ == dec_chars(n as nat) {
                        lemma_dec_chars_digits(n as nat);
                    }
                }
            }
            return None;
        }
        let d = (c as u32 - '0' as u32) as usize;
        if v > (usize::MAX - d) / 10 {
            proof {
                assert forall|n: usize| s@ != dec_chars(n as nat) by {
                    if s@ == dec_chars(n as nat) {
                        lemma_dec_prefix(n as nat, i as int + 1);
                        assert(dec_val(s@.take(i as int + 1)) == v as int * 10 + d);
                    }
                }
            }
            return None;
        }
        v = v * 10 + d;
        i += 1;
    }
    proof {
        assert(s@.take(len as int) =~= s@);
    }
    Some(v)
}

/// Tries to read `t` as a one-field object `{"name":{"field":<rest>}}` and
/// hands back the raw field text; it succeeds exactly on strings of that
/// shape.
fn object_body<'a>(t: &'a str, name: &str, field: &str) -> (r: Option<&'a str>)
    requires
        t.is_ascii(),
        name@.len() <= 1000,
        field@.len() <= 1000,
    ensures
        match r {
            Some(b) => b.is_ascii() && t@ == obj_shape(name@, field@, b@),
            None => forall|body: Seq<char>| t@ != obj_shape(name@, field@, body),
        },
{
    proof {
        reveal_strlit("{\"");
        reveal_strlit("\":{\"");
        reveal_strlit("\":");
        reveal_strlit("}}");
    }
    let len = t.unicode_len();
    let nlen = name.unicode_len();
    let flen = field.unicode_len();
    // {" name ":{" field ": ... }}
    let head = 2 + nlen + 4 + flen + 2;
    if len < head + 2 {
        proof {
            assert forall|body: Seq<char>| t@ != obj_shape(name@, field@, body) by {
                if t@ == obj_shape(name@, field@, body) {
                    assert(t@.len() == 2 + name@.len() + 4 + field@.len() + 2 + body.len() + 2);
                }
            }
        }
        return None;
    }
    if !str_eq(t.substring_ascii(0, 2), "{\"") {
        proof {
            assert forall|body: Seq<char>| t@ != obj_shape(name@, field@, body) by {
                if t@ == obj_shape(name@, field@, body) {
                    assert(t@.subrange(0, 2) =~= "{\""@);
                }
            }
        }
        return None;
    }
    if !str_eq(t.substring_ascii(2, 2 + nlen), name) {
        proof {
            assert forall|body: Seq<char>| t@ != obj_shape(name@, field@, body) by {
                if t@ == obj_shape(name@, field@, body) {
                    assert(t@.subrange(2, 2 + name@.len() as int) =~= name@);
                }
            }
        }
        return None;
    }
    if !str_eq(t.substring_ascii(2 + nlen, 2 + nlen + 4), "\":{\"") {
        proof {
            assert forall|body: Seq<char>| t@ != obj_shape(name@, field@, body) by {
                if t@ == obj_shape(name@, field@, body) {
                    assert(t@.subrange(
                        2 + name@.len() as int,
                        2 + name@.len() as int + 4,
                    ) =~= "\":{\""@);
                }
            }
        }
        return None;
    }
    if !str_eq(t.substring_ascii(2 + nlen + 4, 2 + nlen + 4 + flen), field) {
        proof {
            assert forall|body: Seq<char>| t@ != obj_shape(name@, field@, body) by {
                if t@ == obj_shape(name@, field@, body) {
                    assert(t@.subrange(
                        2 + name@.len() as int + 4,
                        2 + name@.len() as int + 4 + field@.len() as int,
                    ) =~= field@);
                }
            }
        }
        return None;
    }
    if !str_eq(t.substring_ascii(2 + nlen + 4 + flen, head), "\":") {
        proof {
            assert forall|body: Seq<char>| t@ != obj_shape(name@, field@, body) by {
                if t@ == obj_shape(name@, field@, body) {
                    assert(t@.subrange(
                        2 + name@.len() as int + 4 + field@.len() as int,
                        2 + name@.len() as int + 4 + field@.len() as int + 2,
                    ) =~= "\":"@);
                }
            }
        }
        return None;
    }
    if !str_eq(t.substring_ascii(len - 2, len), "}}") {
        proof {
            assert forall|body: Seq<char>| t@ != obj_shape(name@, field@, body) by {
                if t@ == obj_shape(name@, field@, body) {
                    assert(t@.subrange(t@.len() - 2, t@.len() as int) =~= "}}"@);
                }
            }
        }
        return None;
    }
    let b = t.substring_ascii(head, len - 2);
    proof {
        assert(t@ =~= obj_shape(name@, field@, b@));
    }
    Some(b)
}

/// Strips one pair of surrounding quotes; it succeeds exactly on quoted
/// strings.
fn unquote<'a>(b: &'a str) -> (r: Option<&'a str>)
    requires
        b.is_ascii(),
    ensures
        match r {
            Some(m) => m.is_ascii() && b@ == quoted(m@),
            None => forall|v: Seq<char>| b@ != quoted(v),
        },
{
    proof {
        reveal_strlit("\"");
    }
    let len = b.unicode_len();
    if len < 2 {
        proof {
            assert forall|v: Seq<char>| b@ != quoted(v) by {
                if b@ == quoted(v) {
                    assert(b@.len() == 2 + v.len());
                }
            }
        }
        return None;
    }
    if b.get_char(0) != '\"' || b.get_char(len - 1) != '\"' {
        proof {
            assert forall|v: Seq<char>| b@ != quoted(v) by {
                if b@ == quoted(v) {
                    assert(b@[0] == '\"');
                    assert(b@[b@.len() - 1] == '\"');
                }
            }
        }
        return None;
    }
    let m = b.substring_ascii(1, len - 1);
    proof {
        assert(b@ =~= quoted(m@));
    }
    Some(m)
}

/// Decodes one remote payload. A command is returned exactly when the
/// trimmed payload is its canonical wire encoding; anything else decodes to
/// nothing.
pub fn decode_event(s: &str) -> (r: Option<AppEvent>)
    ensures
        match r {
            Some(e) => encodable(e) && canon(e) == trim(s@),
            None => true,
        },
        s.is_ascii() ==> ((exists|e: AppEvent|
            #![trigger canon(e)]
            encodable(e) && canon(e) == trim(s@)) ==> r is Some),
{
    if !s.is_ascii() {
        return None;
    }
    let t = trim_str(s);
    let cand = decode_trimmed(t);
    match cand {
        Some(e) => {
            let again = encode_event(&e);
            match again {
                Some(enc) => {
                    if str_eq(enc.as_str(), t) {
                        Some(e)
                    } else {
                        proof {
                            if exists|e2: AppEvent|
                                #![trigger canon(e2)]
                                encodable(e2) && canon(e2) == trim(s@) {
                                assert(encodable(e) && canon(e) == t@);
                                assert(enc@ == canon(e));
                                assert(false);
                            }
                        }
                        None
                    }
                },
                None => {
                    proof {
                        if exists|e2: AppEvent|
                            #![trigger canon(e2)]
                            encodable(e2) && canon(e2) == trim(s@) {
                            assert(encodable(e) && canon(e) == t@);
                            assert(false);
                        }
                    }
                    None
                },
            }
        },
        None => None,
    }
}

/// Two bodies in the same object frame are the same text.
proof fn lemma_body_eq(t: Seq<char>, name: Seq<char>, field: Seq<char>, b1: Seq<char>, b2: Seq<
    char,
>)
    requires
        t == obj_shape(name, field, b1),
        t == obj_shape(name, field, b2),
    ensures
        b1 == b2,
{
    reveal_strlit("{\"");
    reveal_strlit("\":{\"");
    reveal_strlit("\":");
    reveal_strlit("}}");
    assert("{\""@.len() == 2);
    assert("\":{\""@.len() == 4);
    assert("\":"@.len() == 2);
    assert("}}"@.len() == 2);
    assert(obj_shape(name, field, b1).len() == 10 + name.len() + field.len() + b1.len());
    assert(obj_shape(name, field, b2).len() == 10 + name.len() + field.len() + b2.len());
    assert(b1.len() == b2.len());
    assert forall|i: int| 0 <= i < b1.len() implies b1[i] == b2[i] by {
        let off = 2 + name.len() + 4 + field.len() + 2;
        assert(obj_shape(name, field, b1)[off + i] == b1[i]);
        assert(obj_shape(name, field, b2)[off + i] == b2[i]);
    }
    assert(b1 =~= b2);
}

/// Two values in the same pair of quotes are the same text.
proof fn lemma_quoted_eq(b: Seq<char>, v1: Seq<char>, v2: Seq<char>)
    requires
        b == quoted(v1),
        b == quoted(v2),
    ensures
        v1 == v2,
{
    reveal_strlit("\"");
    assert("\""@.len() == 1);
    assert(quoted(v1).len() == 2 + v1.len());
    assert(quoted(v2).len() == 2 + v2.len());
    assert(v1.len() == v2.len());
    assert forall|i: int| 0 <= i < v1.len() implies v1[i] == v2[i] by {
        assert(quoted(v1)[1 + i] == v1[i]);
        assert(quoted(v2)[1 + i] == v2[i]);
    }
    assert(v1 =~= v2);
}

/// Every encodable command's canonical text is either its bare name (for a
/// command without fields) or one of the six object shapes, with the
/// command's own payload in the body.
proof fn lemma_canon_cases(e: AppEvent, t: Seq<char>)
    requires
        encodable(e),
        canon(e) == t,
    ensures
        ({
            ||| (unit_name(e) == canon(e) && unit_name(e).len() > 0)
        ||| (e is AddProc && t == obj_shape("AddProc"@, "cmd"@, quoted(e->AddProc_cmd@))
            && plain_text(e->AddProc_cmd@))
        ||| (e is RemoveProc && t == obj_shape(
            "RemoveProc"@,
            "id"@,
            dec_chars(e->RemoveProc_id as nat),
        ))
        ||| (e is SelectProc && t == obj_shape(
            "SelectProc"@,
            "index"@,
            dec_chars(e->SelectProc_index as nat),
        ))
        ||| (e is ScrollUpLines && t == obj_shape(
            "ScrollUpLines"@,
            "n"@,
            dec_chars(e->ScrollUpLines_n as nat),
        ))
        ||| (e is ScrollDownLines && t == obj_shape(
            "ScrollDownLines"@,
            "n"@,
            dec_chars(e->ScrollDownLines_n as nat),
        ))
            ||| (e is CopyModeMove && t == obj_shape(
                "CopyModeMove"@,
                "dir"@,
                quoted(dir_name(e->CopyModeMove_dir)),
            ))
        }),
{
    reveal_strlit("QuitOrAsk");
    reveal_strlit("Quit");
    reveal_strlit("ForceQuit");
    reveal_strlit("ToggleFocus");
    reveal_strlit("FocusProcs");
    reveal_strlit("FocusTerm");
    reveal_strlit("Zoom");
    reveal_strlit("NextProc");
    reveal_strlit("PrevProc");
    reveal_strlit("StartProc");
    reveal_strlit("TermProc");
    reveal_strlit("KillProc");
    reveal_strlit("RestartProc");
    reveal_strlit("ForceRestartProc");
    reveal_strlit("ScrollUp");
    reveal_strlit("ScrollDown");
    reveal_strlit("ShowAddProc");
    reveal_strlit("ShowRemoveProc");
    reveal_strlit("CopyModeEnter");
    reveal_strlit("CopyModeLeave");
    reveal_strlit("CopyModeEnd");
    reveal_strlit("CopyModeCopy");
    reveal_strlit("{\"");
    reveal_strlit("\":{\"");
    reveal_strlit("\":");
    reveal_strlit("}}");
    reveal_strlit("\"");
    reveal_strlit("\":\"");
    reveal_strlit("\"}}");
    match e {
        AppEvent::AddProc { cmd } => {
            assert(str_obj("AddProc"@, "cmd"@, cmd@) =~= obj_shape(
                "AddProc"@,
                "cmd"@,
                quoted(cmd@),
            ));
        },
        AppEvent::RemoveProc { id } => {
            assert(num_obj("RemoveProc"@, "id"@, id as int) =~= obj_shape(
                "RemoveProc"@,
                "id"@,
                dec_chars(id as nat),
            ));
        },
        AppEvent::SelectProc { index } => {
            assert(num_obj("SelectProc"@, "index"@, index as int) =~= obj_shape(
                "SelectProc"@,
                "index"@,
                dec_chars(index as nat),
            ));
        },
        AppEvent::ScrollUpLines { n } => {
            assert(num_obj("ScrollUpLines"@, "n"@, n as int) =~= obj_shape(
                "ScrollUpLines"@,
                "n"@,
                dec_chars(n as nat),
            ));
        },
        AppEvent::ScrollDownLines { n } => {
            assert(num_obj("ScrollDownLines"@, "n"@, n as int) =~= obj_shape(
                "ScrollDownLines"@,
                "n"@,
                dec_chars(n as nat),
            ));
        },
        AppEvent::CopyModeMove { dir } => {
            assert(str_obj("CopyModeMove"@, "dir"@, dir_name(dir)) =~= obj_shape(
                "CopyModeMove"@,
                "dir"@,
                quoted(dir_name(dir)),
            ));
        },
        _ => {},
    }
}

/// Guesses the command a trimmed payload spells; the caller re-encodes the
/// guess and accepts it only when the encoding matches the payload exactly.
/// Every payload that is the canonical encoding of some command is guessed
/// right.
#[verifier::rlimit(100)]
fn decode_trimmed(t: &str) -> (r: Option<AppEvent>)
    requires
        t.is_ascii(),
    ensures
        (exists|e: AppEvent| #![trigger canon(e)] encodable(e) && canon(e) == t@) ==> match r {
            Some(g) => encodable(g) && canon(g) == t@,
            None => false,
        },
{
    if str_eq(t, "QuitOrAsk") {
        return Some(AppEvent::QuitOrAsk);
    }
    if str_eq(t, "Quit") {
        return Some(AppEvent::Quit);
    }
    if str_eq(t, "ForceQuit") {
        return Some(AppEvent::ForceQuit);
    }
    if str_eq(t, "ToggleFocus") {
        return Some(AppEvent::ToggleFocus);
    }
    if str_eq(t, "FocusProcs") {
        return Some(AppEvent::FocusProcs);
    }
    if str_eq(t, "FocusTerm") {
        return Some(AppEvent::FocusTerm);
    }
    if str_eq(t, "Zoom") {
        return Some(AppEvent::Zoom);
    }
    if str_eq(t, "NextProc") {
        return Some(AppEvent::NextProc);
    }
    if str_eq(t, "PrevProc") {
        return Some(AppEvent::PrevProc);
    }
    if str_eq(t, "StartProc") {
        return Some(AppEvent::StartProc);
    }
    if str_eq(t, "TermProc") {
        return Some(AppEvent::TermProc);
    }
    if str_eq(t, "KillProc") {
        return Some(AppEvent::KillProc);
    }
    if str_eq(t, "RestartProc") {
        return Some(AppEvent::RestartProc);
    }
    if str_eq(t, "ForceRestartProc") {
        return Some(AppEvent::ForceRestartProc);
    }
    if str_eq(t, "ScrollUp") {
        return Some(AppEvent::ScrollUp);
    }
    if str_eq(t, "ScrollDown") {
        return Some(AppEvent::ScrollDown);
    }
    if str_eq(t, "ShowAddProc") {
        return Some(AppEvent::ShowAddProc);
    }
    if str_eq(t, "ShowRemoveProc") {
        return Some(AppEvent::ShowRemoveProc);
    }
    if str_eq(t, "CopyModeEnter") {
        return Some(AppEvent::CopyModeEnter);
    }
    if str_eq(t, "CopyModeLeave") {
        return Some(AppEvent::CopyModeLeave);
    }
    if str_eq(t, "CopyModeEnd") {
        return Some(AppEvent::CopyModeEnd);
    }
    if str_eq(t, "CopyModeCopy") {
        return Some(AppEvent::CopyModeCopy);
    }
    proof {
        assert forall|e: AppEvent|
            #![trigger canon(e)]
            !(canon(e) == t@ && unit_name(e) == canon(e) && unit_name(e).len() > 0) by {
            if canon(e) == t@ && unit_name(e) == canon(e) && unit_name(e).len() > 0 {
                match e {
                    AppEvent::Batch { .. } => {},
                    AppEvent::SendKey { .. } => {},
                    AppEvent::AddProc { .. } => {},
                    AppEvent::RemoveProc { .. } => {},
                    AppEvent::SelectProc { .. } => {},
                    AppEvent::ScrollUpLines { .. } => {},
                    AppEvent::ScrollDownLines { .. } => {},
                    AppEvent::CopyModeMove { .. } => {},
                    _ => {},
                }
            }
        }
    }
    proof {
        reveal_strlit("AddProc");
        reveal_strlit("cmd");
        reveal_strlit("RemoveProc");
        reveal_strlit("id");
        reveal_strlit("SelectProc");
        reveal_strlit("index");
        reveal_strlit("ScrollUpLines");
        reveal_strlit("ScrollDownLines");
        reveal_strlit("n");
        reveal_strlit("CopyModeMove");
        reveal_strlit("dir");
        reveal_strlit("{\"");
        reveal_strlit("\":{\"");
        reveal_strlit("\":");
        reveal_strlit("}}");
        reveal_strlit("\"");
        reveal_strlit("\":\"");
        reveal_strlit("\"}}");
        reveal_strlit("Up");
        reveal_strlit("Down");
        reveal_strlit("Left");
        reveal_strlit("Right");
    }
    match object_body(t, "AddProc", "cmd") {
        Some(b) => {
            match unquote(b) {
                Some(m) => {
            proof {
                if exists|e2: AppEvent| #![trigger canon(e2)] encodable(e2) && canon(e2) == t@ {
                    let e2 = choose|e2: AppEvent|
                        #![trigger canon(e2)]
                        (encodable(e2) && canon(e2) == t@);
                    lemma_canon_cases(e2, t@);
                    if e2 is AddProc && t@ == obj_shape("AddProc"@, "cmd"@, quoted(e2->AddProc_cmd@)) {
                        lemma_body_eq(t@, "AddProc"@, "cmd"@, b@, quoted(e2->AddProc_cmd@));
                        lemma_quoted_eq(b@, m@, e2->AddProc_cmd@);
                    } else if e2 is RemoveProc && t@ == obj_shape("RemoveProc"@, "id"@, dec_chars(e2->RemoveProc_id as nat)) {
                        assert(t@[2] == 'A');
                        assert(t@[2] == 'R');
                        assert(false);
                    } else if e2 is SelectProc && t@ == obj_shape("SelectProc"@, "index"@, dec_chars(e2->SelectProc_index as nat)) {
                        assert(t@[2] == 'A');
                        assert(t@[2] == 'S');
                        assert(false);
                    } else if e2 is ScrollUpLines && t@ == obj_shape("ScrollUpLines"@, "n"@, dec_chars(e2->ScrollUpLines_n as nat)) {
                        assert(t@[2] == 'A');
                        assert(t@[2] == 'S');
                        assert(false);
                    } else if e2 is ScrollDownLines && t@ == obj_shape("ScrollDownLines"@, "n"@, dec_chars(e2->ScrollDownLines_n as nat)) {
                        assert(t@[2] == 'A');
                        assert(t@[2] == 'S');
                        assert(false);
                    } else if e2 is CopyModeMove && t@ == obj_shape("CopyModeMove"@, "dir"@, quoted(dir_name(e2->CopyModeMove_dir))) {
                        assert(t@[2] == 'A');
                        assert(t@[2] == 'C');
                        assert(false);
                    } else {
                        // a command without fields, excluded by the name checks
                        assert(false);
                    }
                }
            }
                    let cmd = String::from_str(m);
                    proof {
                        assert(canon(AppEvent::AddProc { cmd: cmd }) =~= t@);
                    }
                    return Some(AppEvent::AddProc { cmd });
                },
                None => {
            proof {
                if exists|e2: AppEvent| #![trigger canon(e2)] encodable(e2) && canon(e2) == t@ {
                    let e2 = choose|e2: AppEvent|
                        #![trigger canon(e2)]
                        (encodable(e2) && canon(e2) == t@);
                    lemma_canon_cases(e2, t@);
                    if e2 is AddProc && t@ == obj_shape("AddProc"@, "cmd"@, quoted(e2->AddProc_cmd@)) {
                        lemma_body_eq(t@, "AddProc"@, "cmd"@, b@, quoted(e2->AddProc_cmd@));
                        assert(false);
                    } else if e2 is RemoveProc && t@ == obj_shape("RemoveProc"@, "id"@, dec_chars(e2->RemoveProc_id as nat)) {
                        assert(t@[2] == 'A');
                        assert(t@[2] == 'R');
                        assert(false);
                    } else if e2 is SelectProc && t@ == obj_shape("SelectProc"@, "index"@, dec_chars(e2->SelectProc_index as nat)) {
                        assert(t@[2] == 'A');
                        assert(t@[2] == 'S');
                        assert(false);
                    } else if e2 is ScrollUpLines && t@ == obj_shape("ScrollUpLines"@, "n"@, dec_chars(e2->ScrollUpLines_n as nat)) {
                        assert(t@[2] == 'A');
                        assert(t@[2] == 'S');
                        assert(false);
                    } else if e2 is ScrollDownLines && t@ == obj_shape("ScrollDownLines"@, "n"@, dec_chars(e2->ScrollDownLines_n as nat)) {
                        assert(t@[2] == 'A');
                        assert(t@[2] == 'S');
                        assert(false);
                    } else if e2 is CopyModeMove && t@ == obj_shape("CopyModeMove"@, "dir"@, quoted(dir_name(e2->CopyModeMove_dir))) {
                        assert(t@[2] == 'A');
                        assert(t@[2] == 'C');
                        assert(false);
                    } else {
                        // a command without fields, excluded by the name checks
                        assert(false);
                    }
                }
            }
                    return None;
                },
            }
        },
        None => {},
    }
    match object_body(t, "RemoveProc", "id") {
        Some(b) => {
            match parse_usize(b) {
                Some(v) => {
            proof {
                if exists|e2: AppEvent| #![trigger canon(e2)] encodable(e2) && canon(e2) == t@ {
                    let e2 = choose|e2: AppEvent|
                        #![trigger canon(e2)]
                        (encodable(e2) && canon(e2) == t@);
                    lemma_canon_cases(e2, t@);
                    if e2 is RemoveProc && t@ == obj_shape("RemoveProc"@, "id"@, dec_chars(e2->RemoveProc_id as nat)) {
                        lemma_body_eq(t@, "RemoveProc"@, "id"@, b@, dec_chars(e2->RemoveProc_id as nat));
                        lemma_dec_roundtrip(e2->RemoveProc_id as nat);
                        assert(v == e2->RemoveProc_id);
                        assert(canon(AppEvent::RemoveProc { id: v }) =~= t@);
                    } else if e2 is AddProc && t@ == obj_shape("AddProc"@, "cmd"@, quoted(e2->AddProc_cmd@)) {
                        assert(false);
                    } else if e2 is SelectProc && t@ == obj_shape("SelectProc"@, "index"@, dec_chars(e2->SelectProc_index as nat)) {
                        assert(t@[2] == 'R');
                        assert(t@[2] == 'S');
                        assert(false);
                    } else if e2 is ScrollUpLines && t@ == obj_shape("ScrollUpLines"@, "n"@, dec_chars(e2->ScrollUpLines_n as nat)) {
                        assert(t@[2] == 'R');
                        assert(t@[2] == 'S');
                        assert(false);
                    } else if e2 is ScrollDownLines && t@ == obj_shape("ScrollDownLines"@, "n"@, dec_chars(e2->ScrollDownLines_n as nat)) {
                        assert(t@[2] == 'R');
                        assert(t@[2] == 'S');
                        assert(false);
                    } else if e2 is CopyModeMove && t@ == obj_shape("CopyModeMove"@, "dir"@, quoted(dir_name(e2->CopyModeMove_dir))) {
                        assert(t@[2] == 'R');
                        assert(t@[2] == 'C');
                        assert(false);
                    } else {
                        // a command without fields, excluded by the name checks
                        assert(false);
                    }
                }
            }
                    return Some(AppEvent::RemoveProc { id: v });
                },
                None => {
            proof {
                if exists|e2: AppEvent| #![trigger canon(e2)] encodable(e2) && canon(e2) == t@ {
                    let e2 = choose|e2: AppEvent|
                        #![trigger canon(e2)]
                        (encodable(e2) && canon(e2) == t@);
                    lemma_canon_cases(e2, t@);
                    if e2 is RemoveProc && t@ == obj_shape("RemoveProc"@, "id"@, dec_chars(e2->RemoveProc_id as nat)) {
                        lemma_body_eq(t@, "RemoveProc"@, "id"@, b@, dec_chars(e2->RemoveProc_id as nat));
                        assert(false);
                    } else if e2 is AddProc && t@ == obj_shape("AddProc"@, "cmd"@, quoted(e2->AddProc_cmd@)) {
                        assert(false);
                    } else if e2 is SelectProc && t@ == obj_shape("SelectProc"@, "index"@, dec_chars(e2->SelectProc_index as nat)) {
                        assert(t@[2] == 'R');
                        assert(t@[2] == 'S');
                        assert(false);
                    } else if e2 is ScrollUpLines && t@ == obj_shape("ScrollUpLines"@, "n"@, dec_chars(e2->ScrollUpLines_n as nat)) {
                        assert(t@[2] == 'R');
                        assert(t@[2] == 'S');
                        assert(false);
                    } else if e2 is ScrollDownLines && t@ == obj_shape("ScrollDownLines"@, "n"@, dec_chars(e2->ScrollDownLines_n as nat)) {
                        assert(t@[2] == 'R');
                        assert(t@[2] == 'S');
                        assert(false);
                    } else if e2 is CopyModeMove && t@ == obj_shape("CopyModeMove"@, "dir"@, quoted(dir_name(e2->CopyModeMove_dir))) {
                        assert(t@[2] == 'R');
                        assert(t@[2] == 'C');
                        assert(false);
                    } else {
                        // a command without fields, excluded by the name checks
                        assert(false);
                    }
                }
            }
                    return None;
                },
            }
        },
        None => {},
    }
    match object_body(t, "SelectProc", "index") {
        Some(b) => {
            match parse_usize(b) {
                Some(v) => {
            proof {
                if exists|e2: AppEvent| #![trigger canon(e2)] encodable(e2) && canon(e2) == t@ {
                    let e2 = choose|e2: AppEvent|
                        #![trigger canon(e2)]
                        (encodable(e2) && canon(e2) == t@);
                    lemma_canon_cases(e2, t@);
                    if e2 is SelectProc && t@ == obj_shape("SelectProc"@, "index"@, dec_chars(e2->SelectProc_index as nat)) {
                        lemma_body_eq(t@, "SelectProc"@, "index"@, b@, dec_chars(e2->SelectProc_index as nat));
                        lemma_dec_roundtrip(e2->SelectProc_index as nat);
                        assert(v == e2->SelectProc_index);
                        assert(canon(AppEvent::SelectProc { index: v }) =~= t@);
                    } else if e2 is AddProc && t@ == obj_shape("AddProc"@, "cmd"@, quoted(e2->AddProc_cmd@)) {
                        assert(false);
                    } else if e2 is RemoveProc && t@ == obj_shape("RemoveProc"@, "id"@, dec_chars(e2->RemoveProc_id as nat)) {
                        assert(false);
                    } else if e2 is ScrollUpLines && t@ == obj_shape("ScrollUpLines"@, "n"@, dec_chars(e2->ScrollUpLines_n as nat)) {
                        assert(t@[3] == 'e');
                        assert(t@[3] == 'c');
                        assert(false);
                    } else if e2 is ScrollDownLines && t@ == obj_shape("ScrollDownLines"@, "n"@, dec_chars(e2->ScrollDownLines_n as nat)) {
                        assert(t@[3] == 'e');
                        assert(t@[3] == 'c');
                        assert(false);
                    } else if e2 is CopyModeMove && t@ == obj_shape("CopyModeMove"@, "dir"@, quoted(dir_name(e2->CopyModeMove_dir))) {
                        assert(t@[2] == 'S');
                        assert(t@[2] == 'C');
                        assert(false);
                    } else {
                        // a command without fields, excluded by the name checks
                        assert(false);
                    }
                }
            }
                    return Some(AppEvent::SelectProc { index: v });
                },
                None => {
            proof {
                if exists|e2: AppEvent| #![trigger canon(e2)] encodable(e2) && canon(e2) == t@ {
                    let e2 = choose|e2: AppEvent|
                        #![trigger canon(e2)]
                        (encodable(e2) && canon(e2) == t@);
                    lemma_canon_cases(e2, t@);
                    if e2 is SelectProc && t@ == obj_shape("SelectProc"@, "index"@, dec_chars(e2->SelectProc_index as nat)) {
                        lemma_body_eq(t@, "SelectProc"@, "index"@, b@, dec_chars(e2->SelectProc_index as nat));
                        assert(false);
                    } else if e2 is AddProc && t@ == obj_shape("AddProc"@, "cmd"@, quoted(e2->AddProc_cmd@)) {
                        assert(false);
                    } else if e2 is RemoveProc && t@ == obj_shape("RemoveProc"@, "id"@, dec_chars(e2->RemoveProc_id as nat)) {
                        assert(false);
                    } else if e2 is ScrollUpLines && t@ == obj_shape("ScrollUpLines"@, "n"@, dec_chars(e2->ScrollUpLines_n as nat)) {
                        assert(t@[3] == 'e');
                        assert(t@[3] == 'c');
                        assert(false);
                    } else if e2 is ScrollDownLines && t@ == obj_shape("ScrollDownLines"@, "n"@, dec_chars(e2->ScrollDownLines_n as nat)) {
                        assert(t@[3] == 'e');
                        assert(t@[3] == 'c');
                        assert(false);
                    } else if e2 is CopyModeMove && t@ == obj_shape("CopyModeMove"@, "dir"@, quoted(dir_name(e2->CopyModeMove_dir))) {
                        assert(t@[2] == 'S');
                        assert(t@[2] == 'C');
                        assert(false);
                    } else {
                        // a command without fields, excluded by the name checks
                        assert(false);
                    }
                }
            }
                    return None;
                },
            }
        },
        None => {},
    }
    match object_body(t, "ScrollUpLines", "n") {
        Some(b) => {
            match parse_usize(b) {
                Some(v) => {
            proof {
                if exists|e2: AppEvent| #![trigger canon(e2)] encodable(e2) && canon(e2) == t@ {
                    let e2 = choose|e2: AppEvent|
                        #![trigger canon(e2)]
                        (encodable(e2) && canon(e2) == t@);
                    lemma_canon_cases(e2, t@);
                    if e2 is ScrollUpLines && t@ == obj_shape("ScrollUpLines"@, "n"@, dec_chars(e2->ScrollUpLines_n as nat)) {
                        lemma_body_eq(t@, "ScrollUpLines"@, "n"@, b@, dec_chars(e2->ScrollUpLines_n as nat));
                        lemma_dec_roundtrip(e2->ScrollUpLines_n as nat);
                        assert(v == e2->ScrollUpLines_n);
                        assert(canon(AppEvent::ScrollUpLines { n: v }) =~= t@);
                    } else if e2 is AddProc && t@ == obj_shape("AddProc"@, "cmd"@, quoted(e2->AddProc_cmd@)) {
                        assert(false);
                    } else if e2 is RemoveProc && t@ == obj_shape("RemoveProc"@, "id"@, dec_chars(e2->RemoveProc_id as nat)) {
                        assert(false);
                    } else if e2 is SelectProc && t@ == obj_shape("SelectProc"@, "index"@, dec_chars(e2->SelectProc_index as nat)) {
                        assert(false);
                    } else if e2 is ScrollDownLines && t@ == obj_shape("ScrollDownLines"@, "n"@, dec_chars(e2->ScrollDownLines_n as nat)) {
                        assert(t@[8] == 'U');
                        assert(t@[8] == 'D');
                        assert(false);
                    } else if e2 is CopyModeMove && t@ == obj_shape("CopyModeMove"@, "dir"@, quoted(dir_name(e2->CopyModeMove_dir))) {
                        assert(t@[2] == 'S');
                        assert(t@[2] == 'C');
                        assert(false);
                    } else {
                        // a command without fields, excluded by the name checks
                        assert(false);
                    }
                }
            }
                    return Some(AppEvent::ScrollUpLines { n: v });
                },
                None => {
            proof {
                if exists|e2: AppEvent| #![trigger canon(e2)] encodable(e2) && canon(e2) == t@ {
                    let e2 = choose|e2: AppEvent|
                        #![trigger canon(e2)]
                        (encodable(e2) && canon(e2) == t@);
                    lemma_canon_cases(e2, t@);
                    if e2 is ScrollUpLines && t@ == obj_shape("ScrollUpLines"@, "n"@, dec_chars(e2->ScrollUpLines_n as nat)) {
                        lemma_body_eq(t@, "ScrollUpLines"@, "n"@, b@, dec_chars(e2->ScrollUpLines_n as nat));
                        assert(false);
                    } else if e2 is AddProc && t@ == obj_shape("AddProc"@, "cmd"@, quoted(e2->AddProc_cmd@)) {
                        assert(false);
                    } else if e2 is RemoveProc && t@ == obj_shape("RemoveProc"@, "id"@, dec_chars(e2->RemoveProc_id as nat)) {
                        assert(false);
                    } else if e2 is SelectProc && t@ == obj_shape("SelectProc"@, "index"@, dec_chars(e2->SelectProc_index as nat)) {
                        assert(false);
                    } else if e2 is ScrollDownLines && t@ == obj_shape("ScrollDownLines"@, "n"@, dec_chars(e2->ScrollDownLines_n as nat)) {
                        assert(t@[8] == 'U');
                        assert(t@[8] == 'D');
                        assert(false);
                    } else if e2 is CopyModeMove && t@ == obj_shape("CopyModeMove"@, "dir"@, quoted(dir_name(e2->CopyModeMove_dir))) {
                        assert(t@[2] == 'S');
                        assert(t@[2] == 'C');
                        assert(false);
                    } else {
                        // a command without fields, excluded by the name checks
                        assert(false);
                    }
                }
            }
                    return None;
                },
            }
        },
        None => {},
    }
    match object_body(t, "ScrollDownLines", "n") {
        Some(b) => {
            match parse_usize(b) {
                Some(v) => {
            proof {
                if exists|e2: AppEvent| #![trigger canon(e2)] encodable(e2) && canon(e2) == t@ {
                    let e2 = choose|e2: AppEvent|
                        #![trigger canon(e2)]
                        (encodable(e2) && canon(e2) == t@);
                    lemma_canon_cases(e2, t@);
                    if e2 is ScrollDownLines && t@ == obj_shape("ScrollDownLines"@, "n"@, dec_chars(e2->ScrollDownLines_n as nat)) {
                        lemma_body_eq(t@, "ScrollDownLines"@, "n"@, b@, dec_chars(e2->ScrollDownLines_n as nat));
                        lemma_dec_roundtrip(e2->ScrollDownLines_n as nat);
                        assert(v == e2->ScrollDownLines_n);
                        assert(canon(AppEvent::ScrollDownLines { n: v }) =~= t@);
                    } else if e2 is AddProc && t@ == obj_shape("AddProc"@, "cmd"@, quoted(e2->AddProc_cmd@)) {
                        assert(false);
                    } else if e2 is RemoveProc && t@ == obj_shape("RemoveProc"@, "id"@, dec_chars(e2->RemoveProc_id as nat)) {
                        assert(false);
                    } else if e2 is SelectProc && t@ == obj_shape("SelectProc"@, "index"@, dec_chars(e2->SelectProc_index as nat)) {
                        assert(false);
                    } else if e2 is ScrollUpLines && t@ == obj_shape("ScrollUpLines"@, "n"@, dec_chars(e2->ScrollUpLines_n as nat)) {
                        assert(false);
                    } else if e2 is CopyModeMove && t@ == obj_shape("CopyModeMove"@, "dir"@, quoted(dir_name(e2->CopyModeMove_dir))) {
                        assert(t@[2] == 'S');
                        assert(t@[2] == 'C');
                        assert(false);
                    } else {
                        // a command without fields, excluded by the name checks
                        assert(false);
                    }
                }
            }
                    return Some(AppEvent::ScrollDownLines { n: v });
                },
                None => {
            proof {
                if exists|e2: AppEvent| #![trigger canon(e2)] encodable(e2) && canon(e2) == t@ {
                    let e2 = choose|e2: AppEvent|
                        #![trigger canon(e2)]
                        (encodable(e2) && canon(e2) == t@);
                    lemma_canon_cases(e2, t@);
                    if e2 is ScrollDownLines && t@ == obj_shape("ScrollDownLines"@, "n"@, dec_chars(e2->ScrollDownLines_n as nat)) {
                        lemma_body_eq(t@, "ScrollDownLines"@, "n"@, b@, dec_chars(e2->ScrollDownLines_n as nat));
                        assert(false);
                    } else if e2 is AddProc && t@ == obj_shape("AddProc"@, "cmd"@, quoted(e2->AddProc_cmd@)) {
                        assert(false);
                    } else if e2 is RemoveProc && t@ == obj_shape("RemoveProc"@, "id"@, dec_chars(e2->RemoveProc_id as nat)) {
                        assert(false);
                    } else if e2 is SelectProc && t@ == obj_shape("SelectProc"@, "index"@, dec_chars(e2->SelectProc_index as nat)) {
                        assert(false);
                    } else if e2 is ScrollUpLines && t@ == obj_shape("ScrollUpLines"@, "n"@, dec_chars(e2->ScrollUpLines_n as nat)) {
                        assert(false);
                    } else if e2 is CopyModeMove && t@ == obj_shape("CopyModeMove"@, "dir"@, quoted(dir_name(e2->CopyModeMove_dir))) {
                        assert(t@[2] == 'S');
                        assert(t@[2] == 'C');
                        assert(false);
                    } else {
                        // a command without fields, excluded by the name checks
                        assert(false);
                    }
                }
            }
                    return None;
                },
            }
        },
        None => {},
    }
    match object_body(t, "CopyModeMove", "dir") {
        Some(b) => {
            match unquote(b) {
                Some(m) => {
                    if str_eq(m, "Up") {
                        proof {
                            assert(canon(AppEvent::CopyModeMove { dir: CopyMove::Up }) =~= t@);
                        }
                        return Some(AppEvent::CopyModeMove { dir: CopyMove::Up });
                    }
                    if str_eq(m, "Down") {
                        proof {
                            assert(canon(AppEvent::CopyModeMove { dir: CopyMove::Down }) =~= t@);
                        }
                        return Some(AppEvent::CopyModeMove { dir: CopyMove::Down });
                    }
                    if str_eq(m, "Left") {
                        proof {
                            assert(canon(AppEvent::CopyModeMove { dir: CopyMove::Left }) =~= t@);
                        }
                        return Some(AppEvent::CopyModeMove { dir: CopyMove::Left });
                    }
                    if str_eq(m, "Right") {
                        proof {
                            assert(canon(AppEvent::CopyModeMove { dir: CopyMove::Right }) =~= t@);
                        }
                        return Some(AppEvent::CopyModeMove { dir: CopyMove::Right });
                    }
            proof {
                if exists|e2: AppEvent| #![trigger canon(e2)] encodable(e2) && canon(e2) == t@ {
                    let e2 = choose|e2: AppEvent|
                        #![trigger canon(e2)]
                        (encodable(e2) && canon(e2) == t@);
                    lemma_canon_cases(e2, t@);
                    if e2 is CopyModeMove && t@ == obj_shape("CopyModeMove"@, "dir"@, quoted(dir_name(e2->CopyModeMove_dir))) {
                        lemma_body_eq(t@, "CopyModeMove"@, "dir"@, b@, quoted(dir_name(e2->CopyModeMove_dir)));
                        lemma_quoted_eq(b@, m@, dir_name(e2->CopyModeMove_dir));
                        match e2->CopyModeMove_dir {
                            CopyMove::Up => {},
                            CopyMove::Down => {},
                            CopyMove::Left => {},
                            CopyMove::Right => {},
                        }
                        assert(false);
                    } else if e2 is AddProc && t@ == obj_shape("AddProc"@, "cmd"@, quoted(e2->AddProc_cmd@)) {
                        assert(false);
                    } else if e2 is RemoveProc && t@ == obj_shape("RemoveProc"@, "id"@, dec_chars(e2->RemoveProc_id as nat)) {
                        assert(false);
                    } else if e2 is SelectProc && t@ == obj_shape("SelectProc"@, "index"@, dec_chars(e2->SelectProc_index as nat)) {
                        assert(false);
                    } else if e2 is ScrollUpLines && t@ == obj_shape("ScrollUpLines"@, "n"@, dec_chars(e2->ScrollUpLines_n as nat)) {
                        assert(false);
                    } else if e2 is ScrollDownLines && t@ == obj_shape("ScrollDownLines"@, "n"@, dec_chars(e2->ScrollDownLines_n as nat)) {
                        assert(false);
                    } else {
                        // a command without fields, excluded by the name checks
                        assert(false);
                    }
                }
            }
                    return None;
                },
                None => {
            proof {
                if exists|e2: AppEvent| #![trigger canon(e2)] encodable(e2) && canon(e2) == t@ {
                    let e2 = choose|e2: AppEvent|
                        #![trigger canon(e2)]
                        (encodable(e2) && canon(e2) == t@);
                    lemma_canon_cases(e2, t@);
                    if e2 is CopyModeMove && t@ == obj_shape("CopyModeMove"@, "dir"@, quoted(dir_name(e2->CopyModeMove_dir))) {
                        lemma_body_eq(t@, "CopyModeMove"@, "dir"@, b@, quoted(dir_name(e2->CopyModeMove_dir)));
                        assert(false);
                    } else if e2 is AddProc && t@ == obj_shape("AddProc"@, "cmd"@, quoted(e2->AddProc_cmd@)) {
                        assert(false);
                    } else if e2 is RemoveProc && t@ == obj_shape("RemoveProc"@, "id"@, dec_chars(e2->RemoveProc_id as nat)) {
                        assert(false);
                    } else if e2 is SelectProc && t@ == obj_shape("SelectProc"@, "index"@, dec_chars(e2->SelectProc_index as nat)) {
                        assert(false);
                    } else if e2 is ScrollUpLines && t@ == obj_shape("ScrollUpLines"@, "n"@, dec_chars(e2->ScrollUpLines_n as nat)) {
                        assert(false);
                    } else if e2 is ScrollDownLines && t@ == obj_shape("ScrollDownLines"@, "n"@, dec_chars(e2->ScrollDownLines_n as nat)) {
                        assert(false);
                    } else {
                        // a command without fields, excluded by the name checks
                        assert(false);
                    }
                }
            }
                    return None;
                },
            }
        },
        None => {},
    }
            proof {
                if exists|e2: AppEvent| #![trigger canon(e2)] encodable(e2) && canon(e2) == t@ {
                    let e2 = choose|e2: AppEvent|
                        #![trigger canon(e2)]
                        (encodable(e2) && canon(e2) == t@);
                    lemma_canon_cases(e2, t@);
                    if e2 is AddProc && t@ == obj_shape("AddProc"@, "cmd"@, quoted(e2->AddProc_cmd@)) {
                        assert(false);
                    } else if e2 is RemoveProc && t@ == obj_shape("RemoveProc"@, "id"@, dec_chars(e2->RemoveProc_id as nat)) {
                        assert(false);
                    } else if e2 is SelectProc && t@ == obj_shape("SelectProc"@, "index"@, dec_chars(e2->SelectProc_index as nat)) {
                        assert(false);
                    } else if e2 is ScrollUpLines && t@ == obj_shape("ScrollUpLines"@, "n"@, dec_chars(e2->ScrollUpLines_n as nat)) {
                        assert(false);
                    } else if e2 is ScrollDownLines && t@ == obj_shape("ScrollDownLines"@, "n"@, dec_chars(e2->ScrollDownLines_n as nat)) {
                        assert(false);
                    } else if e2 is CopyModeMove && t@ == obj_shape("CopyModeMove"@, "dir"@, quoted(dir_name(e2->CopyModeMove_dir))) {
                        assert(false);
                    } else {
                        assert(false);
                    }
                }
            }
    None
}

/// Handles one remote connection's payload: either the payload is the
/// canonical encoding of a command and exactly that command is applied — the
/// same mutation it would cause coming from local input — or nothing
/// happens.
pub fn handle_remote(s: &mut State, payload: &str) -> (r: (LoopAction, Vec<Effect>))
    requires
        old(s).wf(),
    ensures
        final(s).wf(),
        (exists|e: AppEvent|
            encodable(e) && canon(e) == trim(payload@) && #[trigger] handles(
                *old(s),
                e,
                *final(s),
                r.0,
                r.1@,
            )) || (*final(s) == *old(s) && r.0 == LoopAction::Skip && r.1@.len() == 0),
        payload.is_ascii() && (exists|e: AppEvent|
            #![trigger canon(e)]
            encodable(e) && canon(e) == trim(payload@)) ==> (exists|e: AppEvent|
            encodable(e) && canon(e) == trim(payload@) && #[trigger] handles(
                *old(s),
                e,
                *final(s),
                r.0,
                r.1@,
            )),
{
    let decoded = decode_event(payload);
    match decoded {
        Some(e) => {
            let out = handle_event(s, &e);
            proof {
                assert(handles(*old(s), e, *s, out.0, out.1@));
            }
            out
        },
        None => (LoopAction::Skip, Vec::new()),
    }
}

/// Whether a string may stand inside quotes unescaped.
fn str_is_plain(s: &str) -> (r: bool)
    ensures
        r == plain_text(s@),
{
    let len = s.unicode_len();
    let mut i: usize = 0;
    while i < len
        invariant
            i <= len,
            len == s@.len(),
            forall|k: int|
                0 <= k < i ==> (#[trigger] s@[k]) != '"' && s@[k] != '\\' && ' ' <= s@[k]
                    && s@[k] <= '~',
        decreases len - i,
    {
        let c = s.get_char(i);
        if c == '"' || c == '\\' || c < ' ' || c > '~' {
            return false;
        }
        i += 1;
    }
    true
}

} // verus!
