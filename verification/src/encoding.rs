//! The exchange encoding of the competition record: a structured text form
//! (JSON-shaped) used both as the save-file format and as the payload handed
//! to the external document renderer.
//!
//! The encoding is defined by spec functions over the mathematical model;
//! the executable encoder is proved to produce exactly that text.

use vstd::prelude::*;
use vstd::string::StringExecFns;

use crate::types::{ApplicationError, JudgeView, Kampfgericht, Kampfrichter, Storage, StorageView,
    TableView};

verus! {

/// The hexadecimal digit for a value below sixteen.
pub open spec fn hex_char(d: int) -> char {
    if d == 0 { '0' }
    else if d == 1 { '1' }
    else if d == 2 { '2' }
    else if d == 3 { '3' }
    else if d == 4 { '4' }
    else if d == 5 { '5' }
    else if d == 6 { '6' }
    else if d == 7 { '7' }
    else if d == 8 { '8' }
    else if d == 9 { '9' }
    else if d == 10 { 'a' }
    else if d == 11 { 'b' }
    else if d == 12 { 'c' }
    else if d == 13 { 'd' }
    else if d == 14 { 'e' }
    else { 'f' }
}

/// How one character appears inside a quoted string: quotes and backslashes
/// get a backslash escape, control characters a four-digit hex escape, and
/// everything else stands for itself.
pub open spec fn esc_char(c: char) -> Seq<char> {
    if c == '"' {
        seq!['\\', '"']
    } else if c == '\\' {
        seq!['\\', '\\']
    } else if (c as u32) < 32 {
        seq!['\\', 'u', '0', '0', hex_char(c as u32 as int / 16), hex_char(c as u32 as int % 16)]
    } else {
        seq![c]
    }
}

/// A whole character sequence in escaped form.
pub open spec fn esc(s: Seq<char>) -> Seq<char>
    decreases s.len(),
{
    if s.len() == 0 {
        Seq::empty()
    } else {
        esc_char(s[0]) + esc(s.drop_first())
    }
}

/// A quoted string literal.
pub open spec fn enc_string(s: Seq<char>) -> Seq<char> {
    seq!['"'] + esc(s) + seq!['"']
}

/// A boolean literal.
pub open spec fn enc_bool(b: bool) -> Seq<char> {
    if b {
        seq!['t', 'r', 'u', 'e']
    } else {
        seq!['f', 'a', 'l', 's', 'e']
    }
}

pub proof fn lemma_esc_push(s: Seq<char>, c: char)
    ensures
        esc(s.push(c)) == esc(s) + esc_char(c),
    decreases s.len(),
{
    if s.len() == 0 {
        assert(s.push(c).drop_first() =~= Seq::<char>::empty());
        assert(s.push(c)[0] == c);
        assert(esc(s.push(c)) == esc_char(c) + esc(Seq::<char>::empty()));
        assert(esc(s.push(c)) =~= esc_char(c));
        assert(esc(s) + esc_char(c) =~= esc_char(c));
    } else {
        assert(s.push(c).drop_first() =~= s.drop_first().push(c));
        lemma_esc_push(s.drop_first(), c);
        assert(esc(s.push(c)) =~= esc(s) + esc_char(c));
    }
}

/// Relied on std's String::push: appends exactly the given character.
pub assume_specification[ String::push ](s: &mut String, c: char)
    ensures
        final(s)@ == old(s)@.push(c),
;

/// Append one character in its escaped form.
fn push_escaped(out: &mut String, c: char)
    ensures
        final(out)@ == old(out)@ + esc_char(c),
{
    if c == '"' {
        out.push('\\');
        out.push('"');
    } else if c == '\\' {
        out.push('\\');
        out.push('\\');
    } else if (c as u32) < 32 {
        let v = c as u32;
        out.push('\\');
        out.push('u');
        out.push('0');
        out.push('0');
        out.push(hex_char_exec((v / 16) as u8));
        out.push(hex_char_exec((v % 16) as u8));
    } else {
        out.push(c);
    }
    assert(out@ =~= old(out)@ + esc_char(c));
}

/// The hexadecimal digit for a value below sixteen.
fn hex_char_exec(d: u8) -> (r: char)
    requires
        d < 16,
    ensures
        r == hex_char(d as int),
{
    if d == 0 { '0' }
    else if d == 1 { '1' }
    else if d == 2 { '2' }
    else if d == 3 { '3' }
    else if d == 4 { '4' }
    else if d == 5 { '5' }
    else if d == 6 { '6' }
    else if d == 7 { '7' }
    else if d == 8 { '8' }
    else if d == 9 { '9' }
    else if d == 10 { 'a' }
    else if d == 11 { 'b' }
    else if d == 12 { 'c' }
    else if d == 13 { 'd' }
    else if d == 14 { 'e' }
    else { 'f' }
}

/// Append a quoted, escaped string literal.
fn push_string(out: &mut String, s: &str)
    ensures
        final(out)@ == old(out)@ + enc_string(s@),
{
    out.push('"');
    let n = s.unicode_len();
    let mut i: usize = 0;
    while i < n
        invariant
            n == s@.len(),
            i <= n,
            out@ == old(out)@ + seq!['"'] + esc(s@.take(i as int)),
        decreases n - i,
    {
        let c = s.get_char(i);
        proof {
            assert(s@.take(i as int).push(s@[i as int]) =~= s@.take(i + 1));
            lemma_esc_push(s@.take(i as int), s@[i as int]);
        }
        push_escaped(out, c);
        i = i + 1;
    }
    proof {
        assert(s@.take(n as int) =~= s@);
    }
    out.push('"');
    assert(out@ =~= old(out)@ + enc_string(s@));
}

/// Append a boolean literal.
fn push_bool(out: &mut String, b: bool)
    ensures
        final(out)@ == old(out)@ + enc_bool(b),
{
    if b {
        out.append("true");
        proof {
            reveal_strlit("true");
            assert(out@ =~= old(out)@ + enc_bool(b));
        }
    } else {
        out.append("false");
        proof {
            reveal_strlit("false");
            assert(out@ =~= old(out)@ + enc_bool(b));
        }
    }
}

/// The text of one comma-separated tail of encoded items, each rendered by
/// the given element encoding.
pub open spec fn enc_items<T>(l: Seq<T>, f: spec_fn(T) -> Seq<char>) -> Seq<char>
    decreases l.len(),
{
    if l.len() == 0 {
        Seq::empty()
    } else {
        seq![','] + f(l[0]) + enc_items(l.drop_first(), f)
    }
}

/// The text between the brackets of an encoded collection.
pub open spec fn enc_body<T>(l: Seq<T>, f: spec_fn(T) -> Seq<char>) -> Seq<char> {
    if l.len() == 0 {
        Seq::empty()
    } else {
        f(l[0]) + enc_items(l.drop_first(), f)
    }
}

pub proof fn lemma_enc_items_push<T>(l: Seq<T>, f: spec_fn(T) -> Seq<char>, x: T)
    ensures
        enc_items(l.push(x), f) == enc_items(l, f) + seq![','] + f(x),
    decreases l.len(),
{
    if l.len() == 0 {
        assert(l.push(x).drop_first() =~= Seq::<T>::empty());
        assert(l.push(x)[0] == x);
        assert(enc_items(l.push(x), f) == seq![','] + f(x) + enc_items(Seq::<T>::empty(), f));
        assert(enc_items(l.push(x), f) =~= enc_items(l, f) + seq![','] + f(x));
    } else {
        assert(l.push(x).drop_first() =~= l.drop_first().push(x));
        lemma_enc_items_push(l.drop_first(), f, x);
        assert(enc_items(l.push(x), f) =~= enc_items(l, f) + seq![','] + f(x));
    }
}

pub proof fn lemma_enc_body_push<T>(l: Seq<T>, f: spec_fn(T) -> Seq<char>, x: T)
    ensures
        l.len() == 0 ==> enc_body(l.push(x), f) == f(x),
        l.len() > 0 ==> enc_body(l.push(x), f) == enc_body(l, f) + seq![','] + f(x),
{
    if l.len() == 0 {
        assert(l.push(x).drop_first() =~= Seq::<T>::empty());
        assert(l.push(x)[0] == x);
        assert(enc_body(l.push(x), f) =~= f(x));
    } else {
        assert(l.push(x)[0] == l[0]);
        assert(l.push(x).drop_first() =~= l.drop_first().push(x));
        lemma_enc_items_push(l.drop_first(), f, x);
        assert(enc_body(l.push(x), f) =~= enc_body(l, f) + seq![','] + f(x));
    }
}

/// The element encoding of a replacement-judge name.
pub open spec fn enc_name_elem() -> spec_fn(Seq<char>) -> Seq<char> {
    |s: Seq<char>| enc_string(s)
}

/// An encoded list of replacement-judge names.
pub open spec fn enc_str_list(l: Seq<Seq<char>>) -> Seq<char> {
    seq!['['] + enc_body(l, enc_name_elem()) + seq![']']
}

/// An encoded judge record.
pub open spec fn enc_judge(j: JudgeView) -> Seq<char> {
    seq!['{'] + "\"role\":"@ + enc_string(j.role)
        + seq![','] + "\"name\":"@ + enc_string(j.name)
        + seq![','] + "\"doubleFound\":"@ + enc_bool(j.double_found)
        + seq!['}']
}

/// The element encoding of one keyed judge entry.
pub open spec fn enc_judge_entry() -> spec_fn((Seq<char>, JudgeView)) -> Seq<char> {
    |p: (Seq<char>, JudgeView)| enc_string(p.0) + seq![':'] + enc_judge(p.1)
}

/// An encoded judge mapping.
pub open spec fn enc_judge_map(m: Seq<(Seq<char>, JudgeView)>) -> Seq<char> {
    seq!['{'] + enc_body(m, enc_judge_entry()) + seq!['}']
}

/// An encoded judging-table record.
pub open spec fn enc_table(t: TableView) -> Seq<char> {
    seq!['{'] + "\"uniqueID\":"@ + enc_string(t.unique_id)
        + seq![','] + "\"table_name\":"@ + enc_string(t.table_name)
        + seq![','] + "\"table_kind\":"@ + enc_string(t.table_kind)
        + seq![','] + "\"table_is_finale\":"@ + enc_bool(t.table_is_finale)
        + seq![','] + "\"judges\":"@ + enc_judge_map(t.judges)
        + seq!['}']
}

/// The element encoding of one keyed table entry.
pub open spec fn enc_table_entry() -> spec_fn((Seq<char>, TableView)) -> Seq<char> {
    |p: (Seq<char>, TableView)| enc_string(p.0) + seq![':'] + enc_table(p.1)
}

/// An encoded table mapping.
pub open spec fn enc_table_map(m: Seq<(Seq<char>, TableView)>) -> Seq<char> {
    seq!['{'] + enc_body(m, enc_table_entry()) + seq!['}']
}

/// The full exchange encoding of a competition record.
pub open spec fn enc_storage(v: StorageView) -> Seq<char> {
    seq!['{'] + "\"wk_name\":"@ + enc_string(v.wk_name)
        + seq![','] + "\"wk_date\":"@ + enc_string(v.wk_date)
        + seq![','] + "\"wk_place\":"@ + enc_string(v.wk_place)
        + seq![','] + "\"wk_responsible_person\":"@ + enc_string(v.wk_responsible_person)
        + seq![','] + "\"wk_judgesmeeting_time\":"@ + enc_string(v.wk_judgesmeeting_time)
        + seq![','] + "\"wk_replacement_judges\":"@ + enc_str_list(v.wk_replacement_judges)
        + seq![','] + "\"wk_judgingtables\":"@ + enc_table_map(v.wk_judgingtables)
        + seq!['}']
}

/// Append an encoded list of names.
fn push_str_list(out: &mut String, l: &Vec<String>)
    ensures
        final(out)@ == old(out)@ + enc_str_list(crate::types::names_view(l@)),
{
    let ghost model = crate::types::names_view(l@);
    out.push('[');
    let mut i: usize = 0;
    while i < l.len()
        invariant
            i <= l.len(),
            model == crate::types::names_view(l@),
            model.len() == l@.len(),
            forall|k: int| 0 <= k < l@.len() ==> model[k] == l@[k]@,
            out@ == old(out)@ + seq!['['] + enc_body(model.take(i as int), enc_name_elem()),
        decreases l.len() - i,
    {
        if i > 0 {
            out.push(',');
        }
        push_string(out, l[i].as_str());
        proof {
            assert(model.take(i as int).push(model[i as int]) =~= model.take(i + 1));
            lemma_enc_body_push(model.take(i as int), enc_name_elem(), model[i as int]);
            assert(out@ =~= old(out)@ + seq!['['] + enc_body(model.take(i + 1), enc_name_elem()));
        }
        i = i + 1;
    }
    proof {
        assert(model.take(model.len() as int) =~= model);
    }
    out.push(']');
    assert(out@ =~= old(out)@ + enc_str_list(model));
}

/// Append an encoded judge record.
fn push_judge(out: &mut String, j: &Kampfrichter)
    ensures
        final(out)@ == old(out)@ + enc_judge(j@),
{
    out.push('{');
    out.append("\"role\":");
    push_string(out, j.role.as_str());
    out.push(',');
    out.append("\"name\":");
    push_string(out, j.name.as_str());
    out.push(',');
    out.append("\"doubleFound\":");
    push_bool(out, j.doubleFound);
    out.push('}');
    assert(out@ =~= old(out)@ + enc_judge(j@));
}

/// Append an encoded judge mapping.
fn push_judge_map(out: &mut String, m: &Vec<(String, Kampfrichter)>)
    ensures
        final(out)@ == old(out)@ + enc_judge_map(
            m@.map_values(|p: (String, Kampfrichter)| (p.0@, p.1@))),
{
    let ghost model = m@.map_values(|p: (String, Kampfrichter)| (p.0@, p.1@));
    out.push('{');
    let mut i: usize = 0;
    while i < m.len()
        invariant
            i <= m.len(),
            model == m@.map_values(|p: (String, Kampfrichter)| (p.0@, p.1@)),
            model.len() == m@.len(),
            forall|k: int| 0 <= k < m@.len() ==> model[k] == (m@[k].0@, m@[k].1@),
            out@ == old(out)@ + seq!['{'] + enc_body(model.take(i as int), enc_judge_entry()),
        decreases m.len() - i,
    {
        if i > 0 {
            out.push(',');
        }
        push_string(out, m[i].0.as_str());
        out.push(':');
        push_judge(out, &m[i].1);
        proof {
            assert(model.take(i as int).push(model[i as int]) =~= model.take(i + 1));
            lemma_enc_body_push(model.take(i as int), enc_judge_entry(), model[i as int]);
            assert(out@ =~= old(out)@ + seq!['{'] + enc_body(model.take(i + 1),
                enc_judge_entry()));
        }
        i = i + 1;
    }
    proof {
        assert(model.take(model.len() as int) =~= model);
    }
    out.push('}');
    assert(out@ =~= old(out)@ + enc_judge_map(model));
}

/// Append an encoded judging-table record.
#[verifier::rlimit(50)]
fn push_table(out: &mut String, t: &Kampfgericht)
    ensures
        final(out)@ == old(out)@ + enc_table(t@),
{
    out.push('{');
    out.append("\"uniqueID\":");
    push_string(out, t.uniqueID.as_str());
    out.push(',');
    out.append("\"table_name\":");
    push_string(out, t.table_name.as_str());
    out.push(',');
    out.append("\"table_kind\":");
    push_string(out, t.table_kind.as_str());
    out.push(',');
    out.append("\"table_is_finale\":");
    push_bool(out, t.table_is_finale);
    out.push(',');
    out.append("\"judges\":");
    push_judge_map(out, &t.judges);
    out.push('}');
    assert(out@ =~= old(out)@ + enc_table(t@));
}

/// Append an encoded table mapping.
#[verifier::rlimit(50)]
fn push_table_map(out: &mut String, m: &Vec<(String, Kampfgericht)>)
    ensures
        final(out)@ == old(out)@ + enc_table_map(crate::types::tables_view(m@)),
{
    let ghost model = crate::types::tables_view(m@);
    out.push('{');
    let mut i: usize = 0;
    while i < m.len()
        invariant
            i <= m.len(),
            model == crate::types::tables_view(m@),
            model.len() == m@.len(),
            forall|k: int| 0 <= k < m@.len() ==> model[k] == (m@[k].0@, m@[k].1@),
            out@ == old(out)@ + seq!['{'] + enc_body(model.take(i as int), enc_table_entry()),
        decreases m.len() - i,
    {
        if i > 0 {
            out.push(',');
        }
        push_string(out, m[i].0.as_str());
        out.push(':');
        push_table(out, &m[i].1);
        proof {
            assert(model.take(i as int).push(model[i as int]) =~= model.take(i + 1));
            lemma_enc_body_push(model.take(i as int), enc_table_entry(), model[i as int]);
            assert(out@ =~= old(out)@ + seq!['{'] + enc_body(model.take(i + 1),
                enc_table_entry()));
        }
        i = i + 1;
    }
    proof {
        assert(model.take(model.len() as int) =~= model);
    }
    out.push('}');
    assert(out@ =~= old(out)@ + enc_table_map(model));
}

/// Encode the competition record for the renderer or the save file. Mirrors
/// the behaviour of serializing a record of held locks: a poisoned field
/// lock makes the whole encoding fail.
pub fn encode_storage(storage: &Storage) -> (r: Result<String, ApplicationError>)
    ensures
        r is Ok <==> storage.healthy(),
        r is Ok ==> r->Ok_0@ == enc_storage(storage@),
        r is Err ==> r->Err_0 == ApplicationError::JSONSerializeError,
{
    let mut out = String::new();
    out.push('{');
    out.append("\"wk_name\":");
    let name = match storage.wk_name.read() {
        Ok(v) => v,
        Err(_) => { return Err(ApplicationError::JSONSerializeError); },
    };
    push_string(&mut out, name.as_str());
    out.push(',');
    out.append("\"wk_date\":");
    let date = match storage.wk_date.read() {
        Ok(v) => v,
        Err(_) => { return Err(ApplicationError::JSONSerializeError); },
    };
    push_string(&mut out, date.as_str());
    out.push(',');
    out.append("\"wk_place\":");
    let place = match storage.wk_place.read() {
        Ok(v) => v,
        Err(_) => { return Err(ApplicationError::JSONSerializeError); },
    };
    push_string(&mut out, place.as_str());
    out.push(',');
    out.append("\"wk_responsible_person\":");
    let responsible = match storage.wk_responsible_person.read() {
        Ok(v) => v,
        Err(_) => { return Err(ApplicationError::JSONSerializeError); },
    };
    push_string(&mut out, responsible.as_str());
    out.push(',');
    out.append("\"wk_judgesmeeting_time\":");
    let meeting = match storage.wk_judgesmeeting_time.read() {
        Ok(v) => v,
        Err(_) => { return Err(ApplicationError::JSONSerializeError); },
    };
    push_string(&mut out, meeting.as_str());
    out.push(',');
    out.append("\"wk_replacement_judges\":");
    let replacement = match storage.wk_replacement_judges.read() {
        Ok(v) => v,
        Err(_) => { return Err(ApplicationError::JSONSerializeError); },
    };
    push_str_list(&mut out, replacement);
    out.push(',');
    out.append("\"wk_judgingtables\":");
    let tables = match storage.wk_judgingtables.read() {
        Ok(v) => v,
        Err(_) => { return Err(ApplicationError::JSONSerializeError); },
    };
    push_table_map(&mut out, tables);
    out.push('}');
    assert(out@ =~= enc_storage(storage@));
    Ok(out)
}

} // verus!
