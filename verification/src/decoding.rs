//! The parser for the exchange encoding. The grammar is defined by spec
//! functions over character sequences; the executable decoder is proved to
//! return exactly what those functions describe.

use vstd::prelude::*;
use vstd::string::StrSliceExecFns;
use vstd::string::StringExecFns;

use crate::types::{ApplicationError, FieldGuard, JudgeView, Kampfgericht, Kampfrichter, Storage,
    StorageView, TableView};

verus! {

/// Recognise one fixed literal; the next position on success.
pub open spec fn parse_lit(s: Seq<char>, pos: int, lit: Seq<char>) -> Option<int> {
    if 0 <= pos && pos + lit.len() <= s.len() && s.subrange(pos, pos + lit.len()) == lit {
        Some(pos + lit.len())
    } else {
        None
    }
}

/// The value of a hexadecimal digit; sixteen when the character is none.
pub open spec fn hex_val(c: char) -> int {
    if c == '0' { 0 }
    else if c == '1' { 1 }
    else if c == '2' { 2 }
    else if c == '3' { 3 }
    else if c == '4' { 4 }
    else if c == '5' { 5 }
    else if c == '6' { 6 }
    else if c == '7' { 7 }
    else if c == '8' { 8 }
    else if c == '9' { 9 }
    else if c == 'a' { 10 }
    else if c == 'b' { 11 }
    else if c == 'c' { 12 }
    else if c == 'd' { 13 }
    else if c == 'e' { 14 }
    else if c == 'f' { 15 }
    else { 16 }
}

/// The characters of a quoted string after the opening quote, unescaped,
/// and the position after the closing quote.
pub open spec fn parse_str_body(s: Seq<char>, pos: int) -> Option<(Seq<char>, int)>
    decreases s.len() - pos,
{
    if !(0 <= pos && pos < s.len()) {
        None
    } else if s[pos] == '"' {
        Some((Seq::empty(), pos + 1))
    } else if s[pos] == '\\' {
        if pos + 2 <= s.len() && (s[pos + 1] == '"' || s[pos + 1] == '\\') {
            match parse_str_body(s, pos + 2) {
                Some((tail, np)) => Some((seq![s[pos + 1]] + tail, np)),
                None => None,
            }
        } else if pos + 6 <= s.len() && s[pos + 1] == 'u' && s[pos + 2] == '0' && s[pos + 3]
            == '0' && hex_val(s[pos + 4]) < 16 && hex_val(s[pos + 5]) < 16 && hex_val(
            s[pos + 4],
        ) * 16 + hex_val(s[pos + 5]) < 32 {
            match parse_str_body(s, pos + 6) {
                Some(
                    (tail, np),
                ) => Some(
                    (seq![((hex_val(s[pos + 4]) * 16 + hex_val(s[pos + 5])) as u32) as char]
                        + tail, np),
                ),
                None => None,
            }
        } else {
            None
        }
    } else {
        match parse_str_body(s, pos + 1) {
            Some((tail, np)) => Some((seq![s[pos]] + tail, np)),
            None => None,
        }
    }
}

/// A quoted string literal.
pub open spec fn parse_string(s: Seq<char>, pos: int) -> Option<(Seq<char>, int)> {
    if 0 <= pos && pos < s.len() && s[pos] == '"' {
        parse_str_body(s, pos + 1)
    } else {
        None
    }
}

/// A boolean literal.
pub open spec fn parse_bool(s: Seq<char>, pos: int) -> Option<(bool, int)> {
    match parse_lit(s, pos, "true"@) {
        Some(np) => Some((true, np)),
        None => match parse_lit(s, pos, "false"@) {
            Some(np) => Some((false, np)),
            None => None,
        },
    }
}

/// Consume one fixed literal.
pub(crate) fn eat_lit(v: &Vec<char>, pos: usize, lit: &str) -> (r: Option<usize>)
    ensures
        r is None ==> parse_lit(v@, pos as int, lit@) is None,
        r is Some ==> parse_lit(v@, pos as int, lit@) == Some(r->Some_0 as int),
        r is Some ==> pos <= r->Some_0 <= v.len(),
{
    let n = lit.unicode_len();
    if pos > v.len() || n > v.len() - pos {
        assert(pos + lit@.len() > v.len());
        return None;
    }
    let mut i: usize = 0;
    while i < n
        invariant
            n == lit@.len(),
            i <= n,
            pos + n <= v.len(),
            forall|k: int| 0 <= k < i ==> v@[pos + k] == lit@[k],
        decreases n - i,
    {
        if v[pos + i] != lit.get_char(i) {
            proof {
                let sub = v@.subrange(pos as int, pos + lit@.len());
                assert(sub[i as int] != lit@[i as int]);
                assert(sub != lit@);
            }
            return None;
        }
        i = i + 1;
    }
    proof {
        assert(v@.subrange(pos as int, pos + lit@.len()) =~= lit@);
    }
    Some(pos + n)
}

/// The value of a hexadecimal digit; sixteen when the character is none.
fn hex_val_exec(c: char) -> (r: u8)
    ensures
        r as int == hex_val(c),
{
    if c == '0' { 0 }
    else if c == '1' { 1 }
    else if c == '2' { 2 }
    else if c == '3' { 3 }
    else if c == '4' { 4 }
    else if c == '5' { 5 }
    else if c == '6' { 6 }
    else if c == '7' { 7 }
    else if c == '8' { 8 }
    else if c == '9' { 9 }
    else if c == 'a' { 10 }
    else if c == 'b' { 11 }
    else if c == 'c' { 12 }
    else if c == 'd' { 13 }
    else if c == 'e' { 14 }
    else if c == 'f' { 15 }
    else { 16 }
}

/// Decode a quoted string's body, starting after the opening quote.
fn d_str_body(v: &Vec<char>, pos: usize) -> (r: Option<(String, usize)>)
    ensures
        r is None ==> parse_str_body(v@, pos as int) is None,
        r is Some ==> parse_str_body(v@, pos as int) == Some(
            (r->Some_0.0@, r->Some_0.1 as int),
        ),
        r is Some ==> pos < r->Some_0.1 <= v.len(),
    decreases v.len() - pos,
{
    if pos >= v.len() {
        return None;
    }
    let rem = v.len() - pos;
    let c = v[pos];
    if c == '"' {
        return Some((String::new(), pos + 1));
    }
    if c == '\\' {
        if rem >= 2 && (v[pos + 1] == '"' || v[pos + 1] == '\\') {
            let e = v[pos + 1];
            match d_str_body(v, pos + 2) {
                Some((tail, np)) => {
                    let mut s = String::new();
                    s.push(e);
                    s.append(tail.as_str());
                    assert(s@ =~= seq![e] + tail@);
                    return Some((s, np));
                },
                None => {
                    return None;
                },
            }
        } else if rem >= 6 && v[pos + 1] == 'u' && v[pos + 2] == '0' && v[pos + 3] == '0' {
            let h1 = hex_val_exec(v[pos + 4]);
            let h0 = hex_val_exec(v[pos + 5]);
            if h1 < 16 && h0 < 16 && h1 * 16 + h0 < 32 {
                let decoded = (h1 * 16 + h0) as char;
                match d_str_body(v, pos + 6) {
                    Some((tail, np)) => {
                        let mut s = String::new();
                        s.push(decoded);
                        s.append(tail.as_str());
                        assert(s@ =~= seq![decoded] + tail@);
                        return Some((s, np));
                    },
                    None => {
                        return None;
                    },
                }
            } else {
                return None;
            }
        } else {
            return None;
        }
    }
    match d_str_body(v, pos + 1) {
        Some((tail, np)) => {
            let mut s = String::new();
            s.push(c);
            s.append(tail.as_str());
            assert(s@ =~= seq![c] + tail@);
            Some((s, np))
        },
        None => None,
    }
}

/// Decode a quoted string literal.
pub(crate) fn d_string(v: &Vec<char>, pos: usize) -> (r: Option<(String, usize)>)
    ensures
        r is None ==> parse_string(v@, pos as int) is None,
        r is Some ==> parse_string(v@, pos as int) == Some((r->Some_0.0@, r->Some_0.1 as int)),
        r is Some ==> pos < r->Some_0.1 <= v.len(),
{
    if pos < v.len() && v[pos] == '"' {
        d_str_body(v, pos + 1)
    } else {
        None
    }
}

/// Decode a boolean literal.
pub(crate) fn d_bool(v: &Vec<char>, pos: usize) -> (r: Option<(bool, usize)>)
    ensures
        r is None ==> parse_bool(v@, pos as int) is None,
        r is Some ==> parse_bool(v@, pos as int) == Some((r->Some_0.0, r->Some_0.1 as int)),
        r is Some ==> pos <= r->Some_0.1 <= v.len(),
{
    match eat_lit(v, pos, "true") {
        Some(np) => Some((true, np)),
        None => match eat_lit(v, pos, "false") {
            Some(np) => Some((false, np)),
            None => None,
        },
    }
}

/// Recognise one single character.
pub open spec fn parse_char(s: Seq<char>, pos: int, c: char) -> Option<int> {
    if 0 <= pos && pos < s.len() && s[pos] == c {
        Some(pos + 1)
    } else {
        None
    }
}

/// The comma-separated items after the first one, up to the closing
/// bracket, each recognised by the given element parser.
pub open spec fn parse_items<T>(
    s: Seq<char>,
    pos: int,
    elem: spec_fn(Seq<char>, int) -> Option<(T, int)>,
    close: char,
) -> Option<(Seq<T>, int)>
    decreases s.len() - pos,
{
    if !(0 <= pos && pos < s.len()) {
        None
    } else if s[pos] == close {
        Some((Seq::empty(), pos + 1))
    } else if s[pos] == ',' {
        match elem(s, pos + 1) {
            Some((x, p)) => if pos < p && p <= s.len() {
                match parse_items(s, p, elem, close) {
                    Some((rest, p2)) => Some((seq![x] + rest, p2)),
                    None => None,
                }
            } else {
                None
            },
            None => None,
        }
    } else {
        None
    }
}

/// A bracketed collection of items.
pub open spec fn parse_collection<T>(
    s: Seq<char>,
    pos: int,
    opening: char,
    close: char,
    elem: spec_fn(Seq<char>, int) -> Option<(T, int)>,
) -> Option<(Seq<T>, int)> {
    if !(0 <= pos && pos < s.len() && s[pos] == opening) {
        None
    } else if pos + 1 < s.len() && s[pos + 1] == close {
        Some((Seq::empty(), pos + 2))
    } else {
        match elem(s, pos + 1) {
            Some((x, p)) => match parse_items(s, p, elem, close) {
                Some((rest, p2)) => Some((seq![x] + rest, p2)),
                None => None,
            },
            None => None,
        }
    }
}

/// The element parser of a replacement-judge name.
pub open spec fn elem_string() -> spec_fn(Seq<char>, int) -> Option<(Seq<char>, int)> {
    |s: Seq<char>, pos: int| parse_string(s, pos)
}

/// An encoded list of replacement-judge names.
pub open spec fn parse_str_list(s: Seq<char>, pos: int) -> Option<(Seq<Seq<char>>, int)> {
    parse_collection(s, pos, '[', ']', elem_string())
}

/// An encoded judge record.
pub open spec fn parse_judge(s: Seq<char>, pos: int) -> Option<(JudgeView, int)> {
    match parse_char(s, pos, '{') {
        Some(p1) => match parse_lit(s, p1, "\"role\":"@) {
            Some(p2) => match parse_string(s, p2) {
                Some((role, p3)) => match parse_char(s, p3, ',') {
                    Some(p4) => match parse_lit(s, p4, "\"name\":"@) {
                        Some(p5) => match parse_string(s, p5) {
                            Some((name, p6)) => match parse_char(s, p6, ',') {
                                Some(p7) => match parse_lit(s, p7, "\"doubleFound\":"@) {
                                    Some(p8) => match parse_bool(s, p8) {
                                        Some((b, p9)) => match parse_char(s, p9, '}') {
                                            Some(p10) => Some(
                                                (JudgeView {
                                                    role,
                                                    name,
                                                    double_found: b,
                                                }, p10),
                                            ),
                                            None => None,
                                        },
                                        None => None,
                                    },
                                    None => None,
                                },
                                None => None,
                            },
                            None => None,
                        },
                        None => None,
                    },
                    None => None,
                },
                None => None,
            },
            None => None,
        },
        None => None,
    }
}

/// One keyed judge entry.
pub open spec fn parse_judge_entry(s: Seq<char>, pos: int) -> Option<
    ((Seq<char>, JudgeView), int),
> {
    match parse_string(s, pos) {
        Some((k, p)) => match parse_char(s, p, ':') {
            Some(p2) => match parse_judge(s, p2) {
                Some((j, p3)) => Some(((k, j), p3)),
                None => None,
            },
            None => None,
        },
        None => None,
    }
}

/// The element parser of a keyed judge entry.
pub open spec fn elem_judge_entry() -> spec_fn(Seq<char>, int) -> Option<
    ((Seq<char>, JudgeView), int),
> {
    |s: Seq<char>, pos: int| parse_judge_entry(s, pos)
}

/// An encoded judge mapping.
pub open spec fn parse_judge_map(s: Seq<char>, pos: int) -> Option<
    (Seq<(Seq<char>, JudgeView)>, int),
> {
    parse_collection(s, pos, '{', '}', elem_judge_entry())
}

/// An encoded judging-table record.
pub open spec fn parse_table(s: Seq<char>, pos: int) -> Option<(TableView, int)> {
    match parse_char(s, pos, '{') {
        Some(p1) => match parse_lit(s, p1, "\"uniqueID\":"@) {
            Some(p2) => match parse_string(s, p2) {
                Some((unique_id, p3)) => match parse_char(s, p3, ',') {
                    Some(p4) => match parse_lit(s, p4, "\"table_name\":"@) {
                        Some(p5) => match parse_string(s, p5) {
                            Some((table_name, p6)) => match parse_char(s, p6, ',') {
                                Some(p7) => match parse_lit(s, p7, "\"table_kind\":"@) {
                                    Some(p8) => match parse_string(s, p8) {
                                        Some((table_kind, p9)) => match parse_char(s, p9, ',') {
                                            Some(p10) => match parse_lit(
                                                s,
                                                p10,
                                                "\"table_is_finale\":"@,
                                            ) {
                                                Some(p11) => match parse_bool(s, p11) {
                                                    Some((fin, p12)) => match parse_char(
                                                        s,
                                                        p12,
                                                        ',',
                                                    ) {
                                                        Some(p13) => match parse_lit(
                                                            s,
                                                            p13,
                                                            "\"judges\":"@,
                                                        ) {
                                                            Some(p14) => match parse_judge_map(
                                                                s,
                                                                p14,
                                                            ) {
                                                                Some((judges, p15)) => match
                                                                    parse_char(s, p15, '}') {
                                                                    Some(p16) => Some(
                                                                        (TableView {
                                                                            unique_id,
                                                                            table_name,
                                                                            table_kind,
                                                                            table_is_finale: fin,
                                                                            judges,
                                                                        }, p16),
                                                                    ),
                                                                    None => None,
                                                                },
                                                                None => None,
                                                            },
                                                            None => None,
                                                        },
                                                        None => None,
                                                    },
                                                    None => None,
                                                },
                                                None => None,
                                            },
                                            None => None,
                                        },
                                        None => None,
                                    },
                                    None => None,
                                },
                                None => None,
                            },
                            None => None,
                        },
                        None => None,
                    },
                    None => None,
                },
                None => None,
            },
            None => None,
        },
        None => None,
    }
}

/// One keyed table entry.
pub open spec fn parse_table_entry(s: Seq<char>, pos: int) -> Option<
    ((Seq<char>, TableView), int),
> {
    match parse_string(s, pos) {
        Some((k, p)) => match parse_char(s, p, ':') {
            Some(p2) => match parse_table(s, p2) {
                Some((t, p3)) => Some(((k, t), p3)),
                None => None,
            },
            None => None,
        },
        None => None,
    }
}

/// The element parser of a keyed table entry.
pub open spec fn elem_table_entry() -> spec_fn(Seq<char>, int) -> Option<
    ((Seq<char>, TableView), int),
> {
    |s: Seq<char>, pos: int| parse_table_entry(s, pos)
}

/// An encoded table mapping.
pub open spec fn parse_table_map(s: Seq<char>, pos: int) -> Option<
    (Seq<(Seq<char>, TableView)>, int),
> {
    parse_collection(s, pos, '{', '}', elem_table_entry())
}

/// The opening brace and the five scalar fields of an encoded record.
pub open spec fn parse_scalars(s: Seq<char>, pos: int) -> Option<
    ((Seq<char>, Seq<char>, Seq<char>, Seq<char>, Seq<char>), int),
> {
    match parse_char(s, pos, '{') {
        Some(p1) => match parse_lit(s, p1, "\"wk_name\":"@) {
            Some(p2) => match parse_string(s, p2) {
                Some((wk_name, p3)) => match parse_char(s, p3, ',') {
                    Some(p4) => match parse_lit(s, p4, "\"wk_date\":"@) {
                        Some(p5) => match parse_string(s, p5) {
                            Some((wk_date, p6)) => match parse_char(s, p6, ',') {
                                Some(p7) => match parse_lit(s, p7, "\"wk_place\":"@) {
                                    Some(p8) => match parse_string(s, p8) {
                                        Some((wk_place, p9)) => match parse_char(s, p9, ',') {
                                            Some(p10) => match parse_lit(
                                                s,
                                                p10,
                                                "\"wk_responsible_person\":"@,
                                            ) {
                                                Some(p11) => match parse_string(s, p11) {
                                                    Some((wk_responsible, p12)) => match
                                                        parse_char(s, p12, ',') {
                                                        Some(p13) => match parse_lit(
                                                            s,
                                                            p13,
                                                            "\"wk_judgesmeeting_time\":"@,
                                                        ) {
                                                            Some(p14) => match parse_string(
                                                                s,
                                                                p14,
                                                            ) {
                                                                Some((wk_meeting, p15)) => Some(
                                                                    ((wk_name, wk_date, wk_place,
                                                                    wk_responsible, wk_meeting),
                                                                    p15),
                                                                ),
                                                                None => None,
                                                            },
                                                            None => None,
                                                        },
                                                        None => None,
                                                    },
                                                    None => None,
                                                },
                                                None => None,
                                            },
                                            None => None,
                                        },
                                        None => None,
                                    },
                                    None => None,
                                },
                                None => None,
                            },
                            None => None,
                        },
                        None => None,
                    },
                    None => None,
                },
                None => None,
            },
            None => None,
        },
        None => None,
    }
}

/// The full exchange encoding of a competition record.
pub open spec fn parse_storage(s: Seq<char>, pos: int) -> Option<(StorageView, int)> {
    match parse_scalars(s, pos) {
        Some((sc, p15)) => match parse_char(s, p15, ',') {
            Some(p16) => match parse_lit(s, p16, "\"wk_replacement_judges\":"@) {
                Some(p17) => match parse_str_list(s, p17) {
                    Some((repl, p18)) => match parse_char(s, p18, ',') {
                        Some(p19) => match parse_lit(s, p19, "\"wk_judgingtables\":"@) {
                            Some(p20) => match parse_table_map(s, p20) {
                                Some((tables, p21)) => match parse_char(s, p21, '}') {
                                    Some(p22) => Some(
                                        (StorageView {
                                            wk_name: sc.0,
                                            wk_date: sc.1,
                                            wk_place: sc.2,
                                            wk_responsible_person: sc.3,
                                            wk_judgesmeeting_time: sc.4,
                                            wk_replacement_judges: repl,
                                            wk_judgingtables: tables,
                                        }, p22),
                                    ),
                                    None => None,
                                },
                                None => None,
                            },
                            None => None,
                        },
                        None => None,
                    },
                    None => None,
                },
                None => None,
            },
            None => None,
        },
        None => None,
    }
}

/// Consume one single character.
pub(crate) fn eat_char(v: &Vec<char>, pos: usize, c: char) -> (r: Option<usize>)
    ensures
        r is None ==> parse_char(v@, pos as int, c) is None,
        r is Some ==> parse_char(v@, pos as int, c) == Some(r->Some_0 as int),
        r is Some ==> pos < r->Some_0 <= v.len(),
{
    if pos < v.len() && v[pos] == c {
        Some(pos + 1)
    } else {
        None
    }
}

/// Decode the comma-separated names after the first one.
fn d_str_items(v: &Vec<char>, pos: usize) -> (r: Option<(Vec<String>, usize)>)
    ensures
        r is None ==> parse_items(v@, pos as int, elem_string(), ']') is None,
        r is Some ==> parse_items(v@, pos as int, elem_string(), ']') == Some(
            (crate::types::names_view(r->Some_0.0@), r->Some_0.1 as int),
        ),
        r is Some ==> pos < r->Some_0.1 <= v.len(),
    decreases v.len() - pos,
{
    if pos >= v.len() {
        return None;
    }
    if v[pos] == ']' {
        let out: Vec<String> = Vec::new();
        assert(crate::types::names_view(out@) =~= Seq::<Seq<char>>::empty());
        return Some((out, pos + 1));
    }
    if v[pos] == ',' {
        match d_string(v, pos + 1) {
            Some((x, p)) => {
                match d_str_items(v, p) {
                    Some((rest, p2)) => {
                        let mut out: Vec<String> = Vec::new();
                        out.push(x);
                        let mut rest = rest;
                        out.append(&mut rest);
                        assert(crate::types::names_view(out@) =~= seq![out@[0]@]
                            + crate::types::names_view(out@.drop_first()));
                        Some((out, p2))
                    },
                    None => None,
                }
            },
            None => None,
        }
    } else {
        None
    }
}

/// Decode a list of replacement-judge names.
pub(crate) fn d_str_list(v: &Vec<char>, pos: usize) -> (r: Option<(Vec<String>, usize)>)
    ensures
        r is None ==> parse_str_list(v@, pos as int) is None,
        r is Some ==> parse_str_list(v@, pos as int) == Some(
            (crate::types::names_view(r->Some_0.0@), r->Some_0.1 as int),
        ),
        r is Some ==> pos < r->Some_0.1 <= v.len(),
{
    if !(pos < v.len() && v[pos] == '[') {
        return None;
    }
    let rem = v.len() - pos;
    if rem >= 2 && v[pos + 1] == ']' {
        let out: Vec<String> = Vec::new();
        assert(crate::types::names_view(out@) =~= Seq::<Seq<char>>::empty());
        return Some((out, pos + 2));
    }
    match d_string(v, pos + 1) {
        Some((x, p)) => {
            match d_str_items(v, p) {
                Some((rest, p2)) => {
                    let mut out: Vec<String> = Vec::new();
                    out.push(x);
                    let mut rest = rest;
                    out.append(&mut rest);
                    assert(crate::types::names_view(out@) =~= seq![out@[0]@]
                        + crate::types::names_view(out@.drop_first()));
                    Some((out, p2))
                },
                None => None,
            }
        },
        None => None,
    }
}

/// Decode a judge record.
#[verifier::rlimit(50)]
pub(crate) fn d_judge(v: &Vec<char>, pos: usize) -> (r: Option<(Kampfrichter, usize)>)
    ensures
        r is None ==> parse_judge(v@, pos as int) is None,
        r is Some ==> parse_judge(v@, pos as int) == Some((r->Some_0.0@, r->Some_0.1 as int)),
        r is Some ==> pos < r->Some_0.1 <= v.len(),
{
    let p1 = match eat_char(v, pos, '{') { Some(p) => p, None => { return None; } };
    let p2 = match eat_lit(v, p1, "\"role\":") { Some(p) => p, None => { return None; } };
    let (role, p3) = match d_string(v, p2) { Some(x) => x, None => { return None; } };
    let p4 = match eat_char(v, p3, ',') { Some(p) => p, None => { return None; } };
    let p5 = match eat_lit(v, p4, "\"name\":") { Some(p) => p, None => { return None; } };
    let (name, p6) = match d_string(v, p5) { Some(x) => x, None => { return None; } };
    let p7 = match eat_char(v, p6, ',') { Some(p) => p, None => { return None; } };
    let p8 = match eat_lit(v, p7, "\"doubleFound\":") { Some(p) => p, None => { return None; } };
    let (b, p9) = match d_bool(v, p8) { Some(x) => x, None => { return None; } };
    let p10 = match eat_char(v, p9, '}') { Some(p) => p, None => { return None; } };
    Some((Kampfrichter { role, name, doubleFound: b }, p10))
}

/// Decode one keyed judge entry.
pub(crate) fn d_judge_entry(v: &Vec<char>, pos: usize) -> (r: Option<
    ((String, Kampfrichter), usize),
>)
    ensures
        r is None ==> parse_judge_entry(v@, pos as int) is None,
        r is Some ==> parse_judge_entry(v@, pos as int) == Some(
            ((r->Some_0.0.0@, r->Some_0.0.1@), r->Some_0.1 as int),
        ),
        r is Some ==> pos < r->Some_0.1 <= v.len(),
{
    let (k, p) = match d_string(v, pos) { Some(x) => x, None => { return None; } };
    let p2 = match eat_char(v, p, ':') { Some(x) => x, None => { return None; } };
    let (j, p3) = match d_judge(v, p2) { Some(x) => x, None => { return None; } };
    Some(((k, j), p3))
}

/// Decode the comma-separated judge entries after the first one.
fn d_judge_items(v: &Vec<char>, pos: usize) -> (r: Option<(Vec<(String, Kampfrichter)>, usize)>)
    ensures
        r is None ==> parse_items(v@, pos as int, elem_judge_entry(), '}') is None,
        r is Some ==> parse_items(v@, pos as int, elem_judge_entry(), '}') == Some(
            (r->Some_0.0@.map_values(|p: (String, Kampfrichter)| (p.0@, p.1@)),
            r->Some_0.1 as int),
        ),
        r is Some ==> pos < r->Some_0.1 <= v.len(),
    decreases v.len() - pos,
{
    if pos >= v.len() {
        return None;
    }
    if v[pos] == '}' {
        let out: Vec<(String, Kampfrichter)> = Vec::new();
        assert(out@.map_values(|p: (String, Kampfrichter)| (p.0@, p.1@)) =~= Seq::<
            (Seq<char>, JudgeView),
        >::empty());
        return Some((out, pos + 1));
    }
    if v[pos] == ',' {
        match d_judge_entry(v, pos + 1) {
            Some((x, p)) => {
                match d_judge_items(v, p) {
                    Some((rest, p2)) => {
                        let mut out: Vec<(String, Kampfrichter)> = Vec::new();
                        out.push(x);
                        let mut rest = rest;
                        out.append(&mut rest);
                        proof {
                            let f = |p: (String, Kampfrichter)| (p.0@, p.1@);
                            assert(out@.map_values(f) =~= seq![f(out@[0])]
                                + out@.drop_first().map_values(f));
                        }
                        Some((out, p2))
                    },
                    None => None,
                }
            },
            None => None,
        }
    } else {
        None
    }
}

/// Decode a judge mapping.
pub(crate) fn d_judge_map(v: &Vec<char>, pos: usize) -> (r: Option<
    (Vec<(String, Kampfrichter)>, usize),
>)
    ensures
        r is None ==> parse_judge_map(v@, pos as int) is None,
        r is Some ==> parse_judge_map(v@, pos as int) == Some(
            (r->Some_0.0@.map_values(|p: (String, Kampfrichter)| (p.0@, p.1@)),
            r->Some_0.1 as int),
        ),
        r is Some ==> pos < r->Some_0.1 <= v.len(),
{
    if !(pos < v.len() && v[pos] == '{') {
        return None;
    }
    let rem = v.len() - pos;
    if rem >= 2 && v[pos + 1] == '}' {
        let out: Vec<(String, Kampfrichter)> = Vec::new();
        assert(out@.map_values(|p: (String, Kampfrichter)| (p.0@, p.1@)) =~= Seq::<
            (Seq<char>, JudgeView),
        >::empty());
        return Some((out, pos + 2));
    }
    match d_judge_entry(v, pos + 1) {
        Some((x, p)) => {
            match d_judge_items(v, p) {
                Some((rest, p2)) => {
                    let mut out: Vec<(String, Kampfrichter)> = Vec::new();
                    out.push(x);
                    let mut rest = rest;
                    out.append(&mut rest);
                    proof {
                        let f = |p: (String, Kampfrichter)| (p.0@, p.1@);
                        assert(out@.map_values(f) =~= seq![f(out@[0])]
                            + out@.drop_first().map_values(f));
                    }
                    Some((out, p2))
                },
                None => None,
            }
        },
        None => None,
    }
}

/// Decode a judging-table record.
#[verifier::rlimit(80)]
pub(crate) fn d_table(v: &Vec<char>, pos: usize) -> (r: Option<(Kampfgericht, usize)>)
    ensures
        r is None ==> parse_table(v@, pos as int) is None,
        r is Some ==> parse_table(v@, pos as int) == Some((r->Some_0.0@, r->Some_0.1 as int)),
        r is Some ==> pos < r->Some_0.1 <= v.len(),
{
    let p1 = match eat_char(v, pos, '{') { Some(p) => p, None => { return None; } };
    let p2 = match eat_lit(v, p1, "\"uniqueID\":") { Some(p) => p, None => { return None; } };
    let (unique_id, p3) = match d_string(v, p2) { Some(x) => x, None => { return None; } };
    let p4 = match eat_char(v, p3, ',') { Some(p) => p, None => { return None; } };
    let p5 = match eat_lit(v, p4, "\"table_name\":") { Some(p) => p, None => { return None; } };
    let (table_name, p6) = match d_string(v, p5) { Some(x) => x, None => { return None; } };
    let p7 = match eat_char(v, p6, ',') { Some(p) => p, None => { return None; } };
    let p8 = match eat_lit(v, p7, "\"table_kind\":") { Some(p) => p, None => { return None; } };
    let (table_kind, p9) = match d_string(v, p8) { Some(x) => x, None => { return None; } };
    let p10 = match eat_char(v, p9, ',') { Some(p) => p, None => { return None; } };
    let p11 = match eat_lit(v, p10, "\"table_is_finale\":") {
        Some(p) => p,
        None => { return None; },
    };
    let (fin, p12) = match d_bool(v, p11) { Some(x) => x, None => { return None; } };
    let p13 = match eat_char(v, p12, ',') { Some(p) => p, None => { return None; } };
    let p14 = match eat_lit(v, p13, "\"judges\":") { Some(p) => p, None => { return None; } };
    let (judges, p15) = match d_judge_map(v, p14) { Some(x) => x, None => { return None; } };
    let p16 = match eat_char(v, p15, '}') { Some(p) => p, None => { return None; } };
    Some((Kampfgericht {
        uniqueID: unique_id,
        table_name,
        table_kind,
        table_is_finale: fin,
        judges,
    }, p16))
}

/// Decode one keyed table entry.
pub(crate) fn d_table_entry(v: &Vec<char>, pos: usize) -> (r: Option<
    ((String, Kampfgericht), usize),
>)
    ensures
        r is None ==> parse_table_entry(v@, pos as int) is None,
        r is Some ==> parse_table_entry(v@, pos as int) == Some(
            ((r->Some_0.0.0@, r->Some_0.0.1@), r->Some_0.1 as int),
        ),
        r is Some ==> pos < r->Some_0.1 <= v.len(),
{
    let (k, p) = match d_string(v, pos) { Some(x) => x, None => { return None; } };
    let p2 = match eat_char(v, p, ':') { Some(x) => x, None => { return None; } };
    let (t, p3) = match d_table(v, p2) { Some(x) => x, None => { return None; } };
    Some(((k, t), p3))
}

/// Decode the comma-separated table entries after the first one.
fn d_table_items(v: &Vec<char>, pos: usize) -> (r: Option<(Vec<(String, Kampfgericht)>, usize)>)
    ensures
        r is None ==> parse_items(v@, pos as int, elem_table_entry(), '}') is None,
        r is Some ==> parse_items(v@, pos as int, elem_table_entry(), '}') == Some(
            (crate::types::tables_view(r->Some_0.0@), r->Some_0.1 as int),
        ),
        r is Some ==> pos < r->Some_0.1 <= v.len(),
    decreases v.len() - pos,
{
    if pos >= v.len() {
        return None;
    }
    if v[pos] == '}' {
        let out: Vec<(String, Kampfgericht)> = Vec::new();
        assert(crate::types::tables_view(out@) =~= Seq::<(Seq<char>, TableView)>::empty());
        return Some((out, pos + 1));
    }
    if v[pos] == ',' {
        match d_table_entry(v, pos + 1) {
            Some((x, p)) => {
                match d_table_items(v, p) {
                    Some((rest, p2)) => {
                        let mut out: Vec<(String, Kampfgericht)> = Vec::new();
                        out.push(x);
                        let mut rest = rest;
                        out.append(&mut rest);
                        proof {
                            let f = |p: (String, Kampfgericht)| (p.0@, p.1@);
                            assert(crate::types::tables_view(out@) =~= seq![f(out@[0])]
                                + crate::types::tables_view(out@.drop_first()));
                        }
                        Some((out, p2))
                    },
                    None => None,
                }
            },
            None => None,
        }
    } else {
        None
    }
}

/// Decode a table mapping.
pub(crate) fn d_table_map(v: &Vec<char>, pos: usize) -> (r: Option<
    (Vec<(String, Kampfgericht)>, usize),
>)
    ensures
        r is None ==> parse_table_map(v@, pos as int) is None,
        r is Some ==> parse_table_map(v@, pos as int) == Some(
            (crate::types::tables_view(r->Some_0.0@), r->Some_0.1 as int),
        ),
        r is Some ==> pos < r->Some_0.1 <= v.len(),
{
    if !(pos < v.len() && v[pos] == '{') {
        return None;
    }
    let rem = v.len() - pos;
    if rem >= 2 && v[pos + 1] == '}' {
        let out: Vec<(String, Kampfgericht)> = Vec::new();
        assert(crate::types::tables_view(out@) =~= Seq::<(Seq<char>, TableView)>::empty());
        return Some((out, pos + 2));
    }
    match d_table_entry(v, pos + 1) {
        Some((x, p)) => {
            match d_table_items(v, p) {
                Some((rest, p2)) => {
                    let mut out: Vec<(String, Kampfgericht)> = Vec::new();
                    out.push(x);
                    let mut rest = rest;
                    out.append(&mut rest);
                    proof {
                        let f = |p: (String, Kampfgericht)| (p.0@, p.1@);
                        assert(crate::types::tables_view(out@) =~= seq![f(out@[0])]
                            + crate::types::tables_view(out@.drop_first()));
                    }
                    Some((out, p2))
                },
                None => None,
            }
        },
        None => None,
    }
}

/// Decode the opening brace and the five scalar fields of a record.
#[verifier::rlimit(80)]
fn d_scalars(v: &Vec<char>, pos: usize) -> (r: Option<
    ((String, String, String, String, String), usize),
>)
    ensures
        r is None ==> parse_scalars(v@, pos as int) is None,
        r is Some ==> parse_scalars(v@, pos as int) == Some(
            ((r->Some_0.0.0@, r->Some_0.0.1@, r->Some_0.0.2@, r->Some_0.0.3@, r->Some_0.0.4@),
            r->Some_0.1 as int),
        ),
        r is Some ==> pos < r->Some_0.1 <= v.len(),
{
    let p1 = match eat_char(v, pos, '{') { Some(p) => p, None => { return None; } };
    let p2 = match eat_lit(v, p1, "\"wk_name\":") { Some(p) => p, None => { return None; } };
    let (wk_name, p3) = match d_string(v, p2) { Some(x) => x, None => { return None; } };
    let p4 = match eat_char(v, p3, ',') { Some(p) => p, None => { return None; } };
    let p5 = match eat_lit(v, p4, "\"wk_date\":") { Some(p) => p, None => { return None; } };
    let (wk_date, p6) = match d_string(v, p5) { Some(x) => x, None => { return None; } };
    let p7 = match eat_char(v, p6, ',') { Some(p) => p, None => { return None; } };
    let p8 = match eat_lit(v, p7, "\"wk_place\":") { Some(p) => p, None => { return None; } };
    let (wk_place, p9) = match d_string(v, p8) { Some(x) => x, None => { return None; } };
    let p10 = match eat_char(v, p9, ',') { Some(p) => p, None => { return None; } };
    let p11 = match eat_lit(v, p10, "\"wk_responsible_person\":") {
        Some(p) => p,
        None => { return None; },
    };
    let (wk_responsible, p12) = match d_string(v, p11) { Some(x) => x, None => { return None; } };
    let p13 = match eat_char(v, p12, ',') { Some(p) => p, None => { return None; } };
    let p14 = match eat_lit(v, p13, "\"wk_judgesmeeting_time\":") {
        Some(p) => p,
        None => { return None; },
    };
    let (wk_meeting, p15) = match d_string(v, p14) { Some(x) => x, None => { return None; } };
    Some(((wk_name, wk_date, wk_place, wk_responsible, wk_meeting), p15))
}

/// Decode a full competition record; the locks of the returned record are
/// all fresh and healthy.
#[verifier::rlimit(80)]
fn d_storage(v: &Vec<char>, pos: usize) -> (r: Option<(Storage, usize)>)
    ensures
        r is None ==> parse_storage(v@, pos as int) is None,
        r is Some ==> parse_storage(v@, pos as int) == Some((r->Some_0.0@, r->Some_0.1 as int)),
        r is Some ==> r->Some_0.0.healthy(),
        r is Some ==> pos < r->Some_0.1 <= v.len(),
{
    let (scalars, p15) = match d_scalars(v, pos) { Some(x) => x, None => { return None; } };
    let (wk_name, wk_date, wk_place, wk_responsible, wk_meeting) = scalars;
    let p16 = match eat_char(v, p15, ',') { Some(p) => p, None => { return None; } };
    let p17 = match eat_lit(v, p16, "\"wk_replacement_judges\":") {
        Some(p) => p,
        None => { return None; },
    };
    let (repl, p18) = match d_str_list(v, p17) { Some(x) => x, None => { return None; } };
    let p19 = match eat_char(v, p18, ',') { Some(p) => p, None => { return None; } };
    let p20 = match eat_lit(v, p19, "\"wk_judgingtables\":") {
        Some(p) => p,
        None => { return None; },
    };
    let (tables, p21) = match d_table_map(v, p20) { Some(x) => x, None => { return None; } };
    let p22 = match eat_char(v, p21, '}') { Some(p) => p, None => { return None; } };
    Some((Storage {
        wk_name: FieldGuard::new(wk_name),
        wk_date: FieldGuard::new(wk_date),
        wk_place: FieldGuard::new(wk_place),
        wk_responsible_person: FieldGuard::new(wk_responsible),
        wk_judgesmeeting_time: FieldGuard::new(wk_meeting),
        wk_replacement_judges: FieldGuard::new(repl),
        wk_judgingtables: FieldGuard::new(tables),
    }, p22))
}

/// Decode a saved or transferred competition record. Succeeds exactly on
/// texts that are one complete encoded record; anything else is refused as
/// a corrupt import.
pub fn decode_storage(text: &str) -> (r: Result<Storage, ApplicationError>)
    ensures
        r is Ok <==> (parse_storage(text@, 0) is Some && parse_storage(text@, 0)->Some_0.1
            == text@.len()),
        r is Ok ==> r->Ok_0@ == parse_storage(text@, 0)->Some_0.0 && r->Ok_0.healthy(),
        r is Err ==> r->Err_0 == ApplicationError::JSONDeserializeImporterError,
{
    let v = to_char_vec(text);
    match d_storage(&v, 0) {
        Some((st, p)) => {
            if p == v.len() {
                Ok(st)
            } else {
                Err(ApplicationError::JSONDeserializeImporterError)
            }
        },
        None => Err(ApplicationError::JSONDeserializeImporterError),
    }
}

/// The characters of a string, in order.
pub(crate) fn to_char_vec(s: &str) -> (r: Vec<char>)
    ensures
        r@ == s@,
{
    let n = s.unicode_len();
    let mut r: Vec<char> = Vec::new();
    let mut i: usize = 0;
    while i < n
        invariant
            n == s@.len(),
            i <= n,
            r@ == s@.take(i as int),
        decreases n - i,
    {
        r.push(s.get_char(i));
        proof {
            assert(s@.take(i as int).push(s@[i as int]) =~= s@.take(i + 1));
        }
        i = i + 1;
    }
    proof {
        assert(s@.take(n as int) =~= s@);
    }
    r
}

} // verus!
