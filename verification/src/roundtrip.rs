//! Every record encoded by this library is read back unchanged: the parser,
//! run on the text the encoder produces, returns exactly the encoded value
//! and consumes the whole text.

use vstd::prelude::*;

use crate::decoding::{elem_judge_entry, elem_string, elem_table_entry, hex_val, parse_bool,
    parse_scalars,
    parse_char, parse_collection, parse_items, parse_judge, parse_judge_entry, parse_judge_map,
    parse_lit, parse_storage, parse_str_body, parse_str_list, parse_string, parse_table,
    parse_table_entry, parse_table_map};
use crate::encoding::{enc_body, enc_bool, enc_items, enc_judge, enc_judge_entry, enc_judge_map,
    enc_name_elem, enc_storage, enc_str_list, enc_string, enc_table, enc_table_entry,
    enc_table_map, esc, esc_char, hex_char};
use crate::types::{JudgeView, StorageView, TableView};

verus! {

/// A slice known to hold a concatenation splits into slices holding each part.
proof fn lemma_sub_split(s: Seq<char>, pos: int, a: Seq<char>, b: Seq<char>)
    requires
        0 <= pos,
        pos + a.len() + b.len() <= s.len(),
        s.subrange(pos, pos + a.len() + b.len()) == a + b,
    ensures
        s.subrange(pos, pos + a.len()) == a,
        s.subrange(pos + a.len(), pos + a.len() + b.len()) == b,
{
    let whole = s.subrange(pos, pos + a.len() + b.len());
    assert forall|i: int| 0 <= i < a.len() implies s[pos + i] == a[i] by {
        assert(whole[i] == (a + b)[i]);
    }
    assert forall|i: int| 0 <= i < b.len() implies s[pos + a.len() + i] == b[i] by {
        assert(whole[a.len() + i] == (a + b)[a.len() + i]);
    }
    assert(s.subrange(pos, pos + a.len()) =~= a);
    assert(s.subrange(pos + a.len(), pos + a.len() + b.len()) =~= b);
}

/// A slice known to hold a given text pins down the character at one index.
proof fn lemma_char_at(s: Seq<char>, pos: int, t: Seq<char>, i: int)
    requires
        0 <= pos,
        pos + t.len() <= s.len(),
        s.subrange(pos, pos + t.len()) == t,
        0 <= i < t.len(),
    ensures
        s[pos + i] == t[i],
{
    assert(s.subrange(pos, pos + t.len())[i] == t[i]);
}

proof fn lemma_hex_inverse(d: int)
    requires
        0 <= d < 16,
    ensures
        hex_val(hex_char(d)) == d,
{
}

/// A string body followed by its closing quote parses back to the string.
proof fn lemma_parse_str_body_of(s: Seq<char>, pos: int, x: Seq<char>)
    requires
        0 <= pos,
        pos + esc(x).len() + 1 <= s.len(),
        s.subrange(pos, pos + esc(x).len() + 1) == esc(x) + seq!['"'],
    ensures
        parse_str_body(s, pos) == Some((x, pos + esc(x).len() + 1)),
    decreases x.len(),
{
    if x.len() == 0 {
        assert(esc(x) =~= Seq::<char>::empty());
        assert(s.subrange(pos, pos + 1) =~= seq!['"']);
        lemma_char_at(s, pos, seq!['"'], 0);
        assert(s[pos] == '"');
        assert(parse_str_body(s, pos) == Some((Seq::<char>::empty(), pos + 1)));
        assert(x =~= Seq::<char>::empty());
    } else {
        let c = x[0];
        let rest = x.drop_first();
        assert(esc(x) == esc_char(c) + esc(rest));
        let tail = esc(rest) + seq!['"'];
        assert(s.subrange(pos, pos + esc_char(c).len() + tail.len()) =~= esc_char(c) + tail);
        lemma_sub_split(s, pos, esc_char(c), tail);
        lemma_char_at(s, pos, esc_char(c), 0);
        if esc_char(c).len() >= 2 {
            lemma_char_at(s, pos, esc_char(c), 1);
        }
        if esc_char(c).len() == 6 {
            lemma_char_at(s, pos, esc_char(c), 2);
            lemma_char_at(s, pos, esc_char(c), 3);
            lemma_char_at(s, pos, esc_char(c), 4);
            lemma_char_at(s, pos, esc_char(c), 5);
        }
        let mid = pos + esc_char(c).len();
        lemma_parse_str_body_of(s, mid, rest);
        assert(x =~= seq![c] + rest);
        if c == '"' {
            assert(s[pos] == '\\' && s[pos + 1] == '"');
            assert(parse_str_body(s, pos) == Some((seq![s[pos + 1]] + rest, pos + esc(x).len()
                + 1)));
        } else if c == '\\' {
            assert(s[pos] == '\\' && s[pos + 1] == '\\');
            assert(parse_str_body(s, pos) == Some((seq![s[pos + 1]] + rest, pos + esc(x).len()
                + 1)));
        } else if (c as u32) < 32 {
            let v = c as u32 as int;
            assert(s[pos] == '\\' && s[pos + 1] == 'u' && s[pos + 2] == '0' && s[pos + 3] == '0');
            assert(s[pos + 4] == hex_char(v / 16) && s[pos + 5] == hex_char(v % 16));
            lemma_hex_inverse(v / 16);
            lemma_hex_inverse(v % 16);
            assert(hex_val(s[pos + 4]) * 16 + hex_val(s[pos + 5]) == v);
            assert((v as u32) == c as u32);
            vstd::utf8::char_u32_cast(c, c as u32);
            assert(((hex_val(s[pos + 4]) * 16 + hex_val(s[pos + 5])) as u32) as char == c);
            assert(parse_str_body(s, pos) == Some((seq![c] + rest, pos + esc(x).len() + 1)));
        } else {
            assert(s[pos] == c);
            assert(parse_str_body(s, pos) == Some((seq![c] + rest, pos + esc(x).len() + 1)));
        }
    }
}

/// An encoded string literal parses back to the string.
proof fn lemma_parse_string_of(s: Seq<char>, pos: int, x: Seq<char>)
    requires
        0 <= pos,
        pos + enc_string(x).len() <= s.len(),
        s.subrange(pos, pos + enc_string(x).len()) == enc_string(x),
    ensures
        parse_string(s, pos) == Some((x, pos + enc_string(x).len())),
{
    let tail = esc(x) + seq!['"'];
    assert(s.subrange(pos, pos + 1 + tail.len()) =~= seq!['"'] + tail);
    lemma_sub_split(s, pos, seq!['"'], tail);
    lemma_char_at(s, pos, seq!['"'], 0);
    assert(s[pos] == '"');
    lemma_parse_str_body_of(s, pos + 1, x);
}

/// An encoded boolean literal parses back to the boolean.
proof fn lemma_parse_bool_of(s: Seq<char>, pos: int, b: bool)
    requires
        0 <= pos,
        pos + enc_bool(b).len() <= s.len(),
        s.subrange(pos, pos + enc_bool(b).len()) == enc_bool(b),
    ensures
        parse_bool(s, pos) == Some((b, pos + enc_bool(b).len())),
{
    reveal_strlit("true");
    reveal_strlit("false");
    if b {
        assert(s.subrange(pos, pos + 4) =~= "true"@);
        assert(parse_lit(s, pos, "true"@) == Some(pos + 4));
    } else {
        lemma_char_at(s, pos, enc_bool(false), 0);
        assert(s[pos] == 'f');
        if pos + 4 <= s.len() {
            assert(s.subrange(pos, pos + 4)[0] == 'f');
            assert(s.subrange(pos, pos + 4) != "true"@);
        }
        assert(parse_lit(s, pos, "true"@) is None);
        assert(s.subrange(pos, pos + 5) =~= "false"@);
        assert(parse_lit(s, pos, "false"@) == Some(pos + 5));
    }
}

/// The element parser reads back every element encoding that stands
/// anywhere inside the text.
pub open spec fn elem_ok<T>(
    s: Seq<char>,
    enc: spec_fn(T) -> Seq<char>,
    parser: spec_fn(Seq<char>, int) -> Option<(T, int)>,
) -> bool {
    forall|pos: int, x: T|
        #![trigger parser(s, pos), enc(x)]
        0 <= pos && pos + enc(x).len() <= s.len() && s.subrange(pos, pos + enc(x).len()) == enc(x)
            ==> parser(s, pos) == Some((x, pos + enc(x).len()))
}

/// Every element encoding is nonempty and opens with a character distinct
/// from the separators of the surrounding collection.
pub open spec fn elem_opener<T>(enc: spec_fn(T) -> Seq<char>, close: char) -> bool {
    forall|x: T| (#[trigger] enc(x)).len() > 0 && enc(x)[0] != close && enc(x)[0] != ','
}

/// Encoded item tails parse back to the item sequence.
proof fn lemma_parse_items_of<T>(
    s: Seq<char>,
    pos: int,
    l: Seq<T>,
    enc: spec_fn(T) -> Seq<char>,
    parser: spec_fn(Seq<char>, int) -> Option<(T, int)>,
    close: char,
)
    requires
        elem_ok(s, enc, parser),
        elem_opener(enc, close),
        close != ',',
        0 <= pos,
        pos + enc_items(l, enc).len() + 1 <= s.len(),
        s.subrange(pos, pos + enc_items(l, enc).len() + 1) == enc_items(l, enc) + seq![close],
    ensures
        parse_items(s, pos, parser, close) == Some((l, pos + enc_items(l, enc).len() + 1)),
    decreases l.len(),
{
    if l.len() == 0 {
        assert(enc_items(l, enc) =~= Seq::<char>::empty());
        assert(s.subrange(pos, pos + 1) =~= seq![close]);
        lemma_char_at(s, pos, seq![close], 0);
        assert(s[pos] == close);
        assert(parse_items(s, pos, parser, close) == Some((Seq::<T>::empty(), pos + 1)));
        assert(l =~= Seq::<T>::empty());
    } else {
        let x = l[0];
        let rest = l.drop_first();
        assert(enc_items(l, enc) == seq![','] + enc(x) + enc_items(rest, enc));
        let tail = enc(x) + (enc_items(rest, enc) + seq![close]);
        assert(s.subrange(pos, pos + 1 + tail.len()) =~= seq![','] + tail);
        lemma_sub_split(s, pos, seq![','], tail);
        lemma_char_at(s, pos, seq![','], 0);
        assert(s[pos] == ',');
        assert(s.subrange(pos + 1, pos + 1 + enc(x).len() + (enc_items(rest, enc).len() + 1))
            =~= enc(x) + (enc_items(rest, enc) + seq![close]));
        lemma_sub_split(s, pos + 1, enc(x), enc_items(rest, enc) + seq![close]);
        let p = pos + 1 + enc(x).len();
        assert(parser(s, pos + 1) == Some((x, p)));
        lemma_parse_items_of(s, p, rest, enc, parser, close);
        assert(l =~= seq![x] + rest);
        assert(parse_items(s, pos, parser, close) == Some((l, pos + enc_items(l, enc).len()
            + 1)));
    }
}

/// An encoded collection parses back to the item sequence.
proof fn lemma_parse_collection_of<T>(
    s: Seq<char>,
    pos: int,
    l: Seq<T>,
    enc: spec_fn(T) -> Seq<char>,
    parser: spec_fn(Seq<char>, int) -> Option<(T, int)>,
    opening: char,
    close: char,
)
    requires
        elem_ok(s, enc, parser),
        elem_opener(enc, close),
        close != ',',
        0 <= pos,
        pos + enc_body(l, enc).len() + 2 <= s.len(),
        s.subrange(pos, pos + enc_body(l, enc).len() + 2) == seq![opening] + enc_body(l, enc)
            + seq![close],
    ensures
        parse_collection(s, pos, opening, close, parser) == Some(
            (l, pos + enc_body(l, enc).len() + 2),
        ),
{
    let body = enc_body(l, enc);
    assert(s.subrange(pos, pos + 1 + (body.len() + 1)) =~= seq![opening] + (body + seq![close]));
    lemma_sub_split(s, pos, seq![opening], body + seq![close]);
    lemma_char_at(s, pos, seq![opening], 0);
    assert(s[pos] == opening);
    if l.len() == 0 {
        assert(body =~= Seq::<char>::empty());
        assert(s.subrange(pos + 1, pos + 1 + (body + seq![close]).len()) == body + seq![close]);
        assert(s.subrange(pos + 1, pos + 2) =~= seq![close]);
        lemma_char_at(s, pos + 1, seq![close], 0);
        assert(s[pos + 1] == close);
        assert(parse_collection(s, pos, opening, close, parser) == Some(
            (Seq::<T>::empty(), pos + 2),
        ));
        assert(l =~= Seq::<T>::empty());
    } else {
        let x = l[0];
        let rest = l.drop_first();
        assert(body == enc(x) + enc_items(rest, enc));
        assert(s.subrange(pos + 1, pos + 1 + enc(x).len() + (enc_items(rest, enc).len() + 1))
            =~= enc(x) + (enc_items(rest, enc) + seq![close]));
        lemma_sub_split(s, pos + 1, enc(x), enc_items(rest, enc) + seq![close]);
        lemma_char_at(s, pos + 1, enc(x), 0);
        assert(s[pos + 1] == enc(x)[0]);
        assert(s[pos + 1] != close);
        let p = pos + 1 + enc(x).len();
        assert(parser(s, pos + 1) == Some((x, p)));
        lemma_parse_items_of(s, p, rest, enc, parser, close);
        assert(l =~= seq![x] + rest);
        assert(parse_collection(s, pos, opening, close, parser) == Some((l, pos + body.len()
            + 2)));
    }
}

/// An encoded name list parses back to the name sequence.
proof fn lemma_parse_str_list_of(s: Seq<char>, pos: int, l: Seq<Seq<char>>)
    requires
        0 <= pos,
        pos + enc_str_list(l).len() <= s.len(),
        s.subrange(pos, pos + enc_str_list(l).len()) == enc_str_list(l),
    ensures
        parse_str_list(s, pos) == Some((l, pos + enc_str_list(l).len())),
{
    assert forall|pos2: int, x: Seq<char>|
        #![trigger elem_string()(s, pos2), enc_name_elem()(x)]
        0 <= pos2 && pos2 + enc_name_elem()(x).len() <= s.len() && s.subrange(
            pos2,
            pos2 + enc_name_elem()(x).len(),
        ) == enc_name_elem()(x) implies elem_string()(s, pos2) == Some(
        (x, pos2 + enc_name_elem()(x).len()),
    ) by {
        lemma_parse_string_of(s, pos2, x);
    }
    assert(elem_ok(s, enc_name_elem(), elem_string()));
    assert forall|x: Seq<char>| (#[trigger] enc_name_elem()(x)).len() > 0 && enc_name_elem()(
        x,
    )[0] != ']' && enc_name_elem()(x)[0] != ',' by {
        assert(enc_name_elem()(x)[0] == '"');
    }
    assert(elem_opener(enc_name_elem(), ']'));
    assert(s.subrange(pos, pos + enc_body(l, enc_name_elem()).len() + 2) == seq!['[']
        + enc_body(l, enc_name_elem()) + seq![']']);
    lemma_parse_collection_of(s, pos, l, enc_name_elem(), elem_string(), '[', ']');
}

/// An encoded judge record parses back to the judge.
#[verifier::rlimit(100)]
proof fn lemma_parse_judge_of(s: Seq<char>, pos: int, j: JudgeView)
    requires
        0 <= pos,
        pos + enc_judge(j).len() <= s.len(),
        s.subrange(pos, pos + enc_judge(j).len()) == enc_judge(j),
    ensures
        parse_judge(s, pos) == Some((j, pos + enc_judge(j).len())),
{
    let t1 = seq!['{'];
    let t2 = "\"role\":"@;
    let t3 = enc_string(j.role);
    let t4 = seq![','];
    let t5 = "\"name\":"@;
    let t6 = enc_string(j.name);
    let t7 = seq![','];
    let t8 = "\"doubleFound\":"@;
    let t9 = enc_bool(j.double_found);
    let t10 = seq!['}'];
    let q1 = t1;
    let q2 = q1 + t2;
    let q3 = q2 + t3;
    let q4 = q3 + t4;
    let q5 = q4 + t5;
    let q6 = q5 + t6;
    let q7 = q6 + t7;
    let q8 = q7 + t8;
    let q9 = q8 + t9;
    let q10 = q9 + t10;
    assert(enc_judge(j) == q10);
    lemma_sub_split(s, pos, q9, t10);
    lemma_sub_split(s, pos, q8, t9);
    lemma_sub_split(s, pos, q7, t8);
    lemma_sub_split(s, pos, q6, t7);
    lemma_sub_split(s, pos, q5, t6);
    lemma_sub_split(s, pos, q4, t5);
    lemma_sub_split(s, pos, q3, t4);
    lemma_sub_split(s, pos, q2, t3);
    lemma_sub_split(s, pos, q1, t2);
    let p1 = pos + t1.len();
    let p2 = p1 + t2.len();
    let p3 = p2 + t3.len();
    let p4 = p3 + t4.len();
    let p5 = p4 + t5.len();
    let p6 = p5 + t6.len();
    let p7 = p6 + t7.len();
    let p8 = p7 + t8.len();
    let p9 = p8 + t9.len();
    let p10 = p9 + t10.len();
    lemma_char_at(s, pos, t1, 0);
    assert(parse_char(s, pos, '{') == Some(p1));
    assert(parse_lit(s, p1, "\"role\":"@) == Some(p2));
    lemma_parse_string_of(s, p2, j.role);
    lemma_char_at(s, p3, t4, 0);
    assert(parse_char(s, p3, ',') == Some(p4));
    assert(parse_lit(s, p4, "\"name\":"@) == Some(p5));
    lemma_parse_string_of(s, p5, j.name);
    lemma_char_at(s, p6, t7, 0);
    assert(parse_char(s, p6, ',') == Some(p7));
    assert(parse_lit(s, p7, "\"doubleFound\":"@) == Some(p8));
    lemma_parse_bool_of(s, p8, j.double_found);
    lemma_char_at(s, p9, t10, 0);
    assert(parse_char(s, p9, '}') == Some(p10));
    assert(j =~= JudgeView { role: j.role, name: j.name, double_found: j.double_found });
    assert(p10 == pos + enc_judge(j).len());
}

/// An encoded keyed judge entry parses back to the pair.
proof fn lemma_parse_judge_entry_of(s: Seq<char>, pos: int, p: (Seq<char>, JudgeView))
    requires
        0 <= pos,
        pos + enc_judge_entry()(p).len() <= s.len(),
        s.subrange(pos, pos + enc_judge_entry()(p).len()) == enc_judge_entry()(p),
    ensures
        parse_judge_entry(s, pos) == Some((p, pos + enc_judge_entry()(p).len())),
{
    let t1 = enc_string(p.0);
    let t2 = seq![':'];
    let t3 = enc_judge(p.1);
    let q2 = t1 + t2;
    let q3 = q2 + t3;
    assert(enc_judge_entry()(p) == q3);
    lemma_sub_split(s, pos, q2, t3);
    lemma_sub_split(s, pos, t1, t2);
    let p1 = pos + t1.len();
    let p2 = p1 + 1;
    lemma_parse_string_of(s, pos, p.0);
    lemma_char_at(s, p1, t2, 0);
    assert(parse_char(s, p1, ':') == Some(p2));
    lemma_parse_judge_of(s, p2, p.1);
    assert(p =~= (p.0, p.1));
}

/// An encoded judge mapping parses back to the entry sequence.
proof fn lemma_parse_judge_map_of(s: Seq<char>, pos: int, m: Seq<(Seq<char>, JudgeView)>)
    requires
        0 <= pos,
        pos + enc_judge_map(m).len() <= s.len(),
        s.subrange(pos, pos + enc_judge_map(m).len()) == enc_judge_map(m),
    ensures
        parse_judge_map(s, pos) == Some((m, pos + enc_judge_map(m).len())),
{
    assert forall|pos2: int, x: (Seq<char>, JudgeView)|
        #![trigger elem_judge_entry()(s, pos2), enc_judge_entry()(x)]
        0 <= pos2 && pos2 + enc_judge_entry()(x).len() <= s.len() && s.subrange(
            pos2,
            pos2 + enc_judge_entry()(x).len(),
        ) == enc_judge_entry()(x) implies elem_judge_entry()(s, pos2) == Some(
        (x, pos2 + enc_judge_entry()(x).len()),
    ) by {
        lemma_parse_judge_entry_of(s, pos2, x);
    }
    assert(elem_ok(s, enc_judge_entry(), elem_judge_entry()));
    assert forall|x: (Seq<char>, JudgeView)| (#[trigger] enc_judge_entry()(x)).len() > 0
        && enc_judge_entry()(x)[0] != '}' && enc_judge_entry()(x)[0] != ',' by {
        assert(enc_judge_entry()(x)[0] == '"');
    }
    assert(elem_opener(enc_judge_entry(), '}'));
    assert(s.subrange(pos, pos + enc_body(m, enc_judge_entry()).len() + 2) == seq!['{']
        + enc_body(m, enc_judge_entry()) + seq!['}']);
    lemma_parse_collection_of(s, pos, m, enc_judge_entry(), elem_judge_entry(), '{', '}');
}

/// An encoded judging-table record parses back to the table.
#[verifier::rlimit(100)]
proof fn lemma_parse_table_of(s: Seq<char>, pos: int, t: TableView)
    requires
        0 <= pos,
        pos + enc_table(t).len() <= s.len(),
        s.subrange(pos, pos + enc_table(t).len()) == enc_table(t),
    ensures
        parse_table(s, pos) == Some((t, pos + enc_table(t).len())),
{
    let t1 = seq!['{'];
    let t2 = "\"uniqueID\":"@;
    let t3 = enc_string(t.unique_id);
    let t4 = seq![','];
    let t5 = "\"table_name\":"@;
    let t6 = enc_string(t.table_name);
    let t7 = seq![','];
    let t8 = "\"table_kind\":"@;
    let t9 = enc_string(t.table_kind);
    let t10 = seq![','];
    let t11 = "\"table_is_finale\":"@;
    let t12 = enc_bool(t.table_is_finale);
    let t13 = seq![','];
    let t14 = "\"judges\":"@;
    let t15 = enc_judge_map(t.judges);
    let t16 = seq!['}'];
    let q1 = t1;
    let q2 = q1 + t2;
    let q3 = q2 + t3;
    let q4 = q3 + t4;
    let q5 = q4 + t5;
    let q6 = q5 + t6;
    let q7 = q6 + t7;
    let q8 = q7 + t8;
    let q9 = q8 + t9;
    let q10 = q9 + t10;
    let q11 = q10 + t11;
    let q12 = q11 + t12;
    let q13 = q12 + t13;
    let q14 = q13 + t14;
    let q15 = q14 + t15;
    let q16 = q15 + t16;
    assert(enc_table(t) == q16);
    lemma_sub_split(s, pos, q15, t16);
    lemma_sub_split(s, pos, q14, t15);
    lemma_sub_split(s, pos, q13, t14);
    lemma_sub_split(s, pos, q12, t13);
    lemma_sub_split(s, pos, q11, t12);
    lemma_sub_split(s, pos, q10, t11);
    lemma_sub_split(s, pos, q9, t10);
    lemma_sub_split(s, pos, q8, t9);
    lemma_sub_split(s, pos, q7, t8);
    lemma_sub_split(s, pos, q6, t7);
    lemma_sub_split(s, pos, q5, t6);
    lemma_sub_split(s, pos, q4, t5);
    lemma_sub_split(s, pos, q3, t4);
    lemma_sub_split(s, pos, q2, t3);
    lemma_sub_split(s, pos, q1, t2);
    let p1 = pos + t1.len();
    let p2 = p1 + t2.len();
    let p3 = p2 + t3.len();
    let p4 = p3 + t4.len();
    let p5 = p4 + t5.len();
    let p6 = p5 + t6.len();
    let p7 = p6 + t7.len();
    let p8 = p7 + t8.len();
    let p9 = p8 + t9.len();
    let p10 = p9 + t10.len();
    let p11 = p10 + t11.len();
    let p12 = p11 + t12.len();
    let p13 = p12 + t13.len();
    let p14 = p13 + t14.len();
    let p15 = p14 + t15.len();
    let p16 = p15 + t16.len();
    lemma_char_at(s, pos, t1, 0);
    assert(parse_char(s, pos, '{') == Some(p1));
    assert(parse_lit(s, p1, "\"uniqueID\":"@) == Some(p2));
    lemma_parse_string_of(s, p2, t.unique_id);
    lemma_char_at(s, p3, t4, 0);
    assert(parse_char(s, p3, ',') == Some(p4));
    assert(parse_lit(s, p4, "\"table_name\":"@) == Some(p5));
    lemma_parse_string_of(s, p5, t.table_name);
    lemma_char_at(s, p6, t7, 0);
    assert(parse_char(s, p6, ',') == Some(p7));
    assert(parse_lit(s, p7, "\"table_kind\":"@) == Some(p8));
    lemma_parse_string_of(s, p8, t.table_kind);
    lemma_char_at(s, p9, t10, 0);
    assert(parse_char(s, p9, ',') == Some(p10));
    assert(parse_lit(s, p10, "\"table_is_finale\":"@) == Some(p11));
    lemma_parse_bool_of(s, p11, t.table_is_finale);
    lemma_char_at(s, p12, t13, 0);
    assert(parse_char(s, p12, ',') == Some(p13));
    assert(parse_lit(s, p13, "\"judges\":"@) == Some(p14));
    lemma_parse_judge_map_of(s, p14, t.judges);
    lemma_char_at(s, p15, t16, 0);
    assert(parse_char(s, p15, '}') == Some(p16));
    assert(t =~= TableView {
        unique_id: t.unique_id,
        table_name: t.table_name,
        table_kind: t.table_kind,
        table_is_finale: t.table_is_finale,
        judges: t.judges,
    });
    assert(p16 == pos + enc_table(t).len());
}

/// An encoded keyed table entry parses back to the pair.
proof fn lemma_parse_table_entry_of(s: Seq<char>, pos: int, p: (Seq<char>, TableView))
    requires
        0 <= pos,
        pos + enc_table_entry()(p).len() <= s.len(),
        s.subrange(pos, pos + enc_table_entry()(p).len()) == enc_table_entry()(p),
    ensures
        parse_table_entry(s, pos) == Some((p, pos + enc_table_entry()(p).len())),
{
    let t1 = enc_string(p.0);
    let t2 = seq![':'];
    let t3 = enc_table(p.1);
    let q2 = t1 + t2;
    let q3 = q2 + t3;
    assert(enc_table_entry()(p) == q3);
    lemma_sub_split(s, pos, q2, t3);
    lemma_sub_split(s, pos, t1, t2);
    let p1 = pos + t1.len();
    let p2 = p1 + 1;
    lemma_parse_string_of(s, pos, p.0);
    lemma_char_at(s, p1, t2, 0);
    assert(parse_char(s, p1, ':') == Some(p2));
    lemma_parse_table_of(s, p2, p.1);
    assert(p =~= (p.0, p.1));
}

/// An encoded table mapping parses back to the entry sequence.
proof fn lemma_parse_table_map_of(s: Seq<char>, pos: int, m: Seq<(Seq<char>, TableView)>)
    requires
        0 <= pos,
        pos + enc_table_map(m).len() <= s.len(),
        s.subrange(pos, pos + enc_table_map(m).len()) == enc_table_map(m),
    ensures
        parse_table_map(s, pos) == Some((m, pos + enc_table_map(m).len())),
{
    assert forall|pos2: int, x: (Seq<char>, TableView)|
        #![trigger elem_table_entry()(s, pos2), enc_table_entry()(x)]
        0 <= pos2 && pos2 + enc_table_entry()(x).len() <= s.len() && s.subrange(
            pos2,
            pos2 + enc_table_entry()(x).len(),
        ) == enc_table_entry()(x) implies elem_table_entry()(s, pos2) == Some(
        (x, pos2 + enc_table_entry()(x).len()),
    ) by {
        lemma_parse_table_entry_of(s, pos2, x);
    }
    assert(elem_ok(s, enc_table_entry(), elem_table_entry()));
    assert forall|x: (Seq<char>, TableView)| (#[trigger] enc_table_entry()(x)).len() > 0
        && enc_table_entry()(x)[0] != '}' && enc_table_entry()(x)[0] != ',' by {
        assert(enc_table_entry()(x)[0] == '"');
    }
    assert(elem_opener(enc_table_entry(), '}'));
    assert(s.subrange(pos, pos + enc_body(m, enc_table_entry()).len() + 2) == seq!['{']
        + enc_body(m, enc_table_entry()) + seq!['}']);
    lemma_parse_collection_of(s, pos, m, enc_table_entry(), elem_table_entry(), '{', '}');
}

/// The scalar-field prefix of an encoded record.
pub open spec fn enc_scalars(
    a: Seq<char>,
    b: Seq<char>,
    c: Seq<char>,
    d: Seq<char>,
    e: Seq<char>,
) -> Seq<char> {
    seq!['{'] + "\"wk_name\":"@ + enc_string(a)
        + seq![','] + "\"wk_date\":"@ + enc_string(b)
        + seq![','] + "\"wk_place\":"@ + enc_string(c)
        + seq![','] + "\"wk_responsible_person\":"@ + enc_string(d)
        + seq![','] + "\"wk_judgesmeeting_time\":"@ + enc_string(e)
}

/// An encoded scalar-field prefix parses back to the five fields.
#[verifier::rlimit(100)]
proof fn lemma_parse_scalars_of(
    s: Seq<char>,
    pos: int,
    a: Seq<char>,
    b: Seq<char>,
    c: Seq<char>,
    d: Seq<char>,
    e: Seq<char>,
)
    requires
        0 <= pos,
        pos + enc_scalars(a, b, c, d, e).len() <= s.len(),
        s.subrange(pos, pos + enc_scalars(a, b, c, d, e).len()) == enc_scalars(a, b, c, d, e),
    ensures
        parse_scalars(s, pos) == Some(
            ((a, b, c, d, e), pos + enc_scalars(a, b, c, d, e).len()),
        ),
{
    let t1 = seq!['{'];
    let t2 = "\"wk_name\":"@;
    let t3 = enc_string(a);
    let t4 = seq![','];
    let t5 = "\"wk_date\":"@;
    let t6 = enc_string(b);
    let t7 = seq![','];
    let t8 = "\"wk_place\":"@;
    let t9 = enc_string(c);
    let t10 = seq![','];
    let t11 = "\"wk_responsible_person\":"@;
    let t12 = enc_string(d);
    let t13 = seq![','];
    let t14 = "\"wk_judgesmeeting_time\":"@;
    let t15 = enc_string(e);
    let q1 = t1;
    let q2 = q1 + t2;
    let q3 = q2 + t3;
    let q4 = q3 + t4;
    let q5 = q4 + t5;
    let q6 = q5 + t6;
    let q7 = q6 + t7;
    let q8 = q7 + t8;
    let q9 = q8 + t9;
    let q10 = q9 + t10;
    let q11 = q10 + t11;
    let q12 = q11 + t12;
    let q13 = q12 + t13;
    let q14 = q13 + t14;
    let q15 = q14 + t15;
    assert(enc_scalars(a, b, c, d, e) == q15);
    lemma_sub_split(s, pos, q14, t15);
    lemma_sub_split(s, pos, q13, t14);
    lemma_sub_split(s, pos, q12, t13);
    lemma_sub_split(s, pos, q11, t12);
    lemma_sub_split(s, pos, q10, t11);
    lemma_sub_split(s, pos, q9, t10);
    lemma_sub_split(s, pos, q8, t9);
    lemma_sub_split(s, pos, q7, t8);
    lemma_sub_split(s, pos, q6, t7);
    lemma_sub_split(s, pos, q5, t6);
    lemma_sub_split(s, pos, q4, t5);
    lemma_sub_split(s, pos, q3, t4);
    lemma_sub_split(s, pos, q2, t3);
    lemma_sub_split(s, pos, q1, t2);
    let p1 = pos + t1.len();
    let p2 = p1 + t2.len();
    let p3 = p2 + t3.len();
    let p4 = p3 + t4.len();
    let p5 = p4 + t5.len();
    let p6 = p5 + t6.len();
    let p7 = p6 + t7.len();
    let p8 = p7 + t8.len();
    let p9 = p8 + t9.len();
    let p10 = p9 + t10.len();
    let p11 = p10 + t11.len();
    let p12 = p11 + t12.len();
    let p13 = p12 + t13.len();
    let p14 = p13 + t14.len();
    let p15 = p14 + t15.len();
    lemma_char_at(s, pos, t1, 0);
    assert(parse_char(s, pos, '{') == Some(p1));
    assert(parse_lit(s, p1, "\"wk_name\":"@) == Some(p2));
    lemma_parse_string_of(s, p2, a);
    lemma_char_at(s, p3, t4, 0);
    assert(parse_char(s, p3, ',') == Some(p4));
    assert(parse_lit(s, p4, "\"wk_date\":"@) == Some(p5));
    lemma_parse_string_of(s, p5, b);
    lemma_char_at(s, p6, t7, 0);
    assert(parse_char(s, p6, ',') == Some(p7));
    assert(parse_lit(s, p7, "\"wk_place\":"@) == Some(p8));
    lemma_parse_string_of(s, p8, c);
    lemma_char_at(s, p9, t10, 0);
    assert(parse_char(s, p9, ',') == Some(p10));
    assert(parse_lit(s, p10, "\"wk_responsible_person\":"@) == Some(p11));
    lemma_parse_string_of(s, p11, d);
    lemma_char_at(s, p12, t13, 0);
    assert(parse_char(s, p12, ',') == Some(p13));
    assert(parse_lit(s, p13, "\"wk_judgesmeeting_time\":"@) == Some(p14));
    lemma_parse_string_of(s, p14, e);
    assert(p15 == pos + enc_scalars(a, b, c, d, e).len());
}

/// The token layout of an encoded record after its scalar prefix.
#[verifier::rlimit(100)]
proof fn lemma_storage_tokens(s: Seq<char>, pos: int, v: StorageView)
    requires
        0 <= pos,
        pos + enc_storage(v).len() <= s.len(),
        s.subrange(pos, pos + enc_storage(v).len()) == enc_storage(v),
    ensures
        ({
            let t1 = enc_scalars(v.wk_name, v.wk_date, v.wk_place, v.wk_responsible_person,
                v.wk_judgesmeeting_time);
            let t3 = "\"wk_replacement_judges\":"@;
            let t4 = enc_str_list(v.wk_replacement_judges);
            let t6 = "\"wk_judgingtables\":"@;
            let t7 = enc_table_map(v.wk_judgingtables);
            let p15 = pos + t1.len();
            let p16 = p15 + 1;
            let p17 = p16 + t3.len();
            let p18 = p17 + t4.len();
            let p19 = p18 + 1;
            let p20 = p19 + t6.len();
            let p21 = p20 + t7.len();
            let p22 = p21 + 1;
            &&& s.subrange(pos, p15) == t1
            &&& s.subrange(p15, p16) == seq![',']
            &&& s.subrange(p16, p17) == t3
            &&& s.subrange(p17, p18) == t4
            &&& s.subrange(p18, p19) == seq![',']
            &&& s.subrange(p19, p20) == t6
            &&& s.subrange(p20, p21) == t7
            &&& s.subrange(p21, p22) == seq!['}']
            &&& p22 == pos + enc_storage(v).len()
        }),
{
    let t1 = enc_scalars(
        v.wk_name,
        v.wk_date,
        v.wk_place,
        v.wk_responsible_person,
        v.wk_judgesmeeting_time,
    );
    let t2 = seq![','];
    let t3 = "\"wk_replacement_judges\":"@;
    let t4 = enc_str_list(v.wk_replacement_judges);
    let t5 = seq![','];
    let t6 = "\"wk_judgingtables\":"@;
    let t7 = enc_table_map(v.wk_judgingtables);
    let t8 = seq!['}'];
    let q1 = t1;
    let q2 = q1 + t2;
    let q3 = q2 + t3;
    let q4 = q3 + t4;
    let q5 = q4 + t5;
    let q6 = q5 + t6;
    let q7 = q6 + t7;
    let q8 = q7 + t8;
    assert(enc_storage(v) == q8);
    lemma_sub_split(s, pos, q7, t8);
    lemma_sub_split(s, pos, q6, t7);
    lemma_sub_split(s, pos, q5, t6);
    lemma_sub_split(s, pos, q4, t5);
    lemma_sub_split(s, pos, q3, t4);
    lemma_sub_split(s, pos, q2, t3);
    lemma_sub_split(s, pos, q1, t2);
}

/// Evaluation of the record parser once each token's slice is pinned down.
#[verifier::rlimit(100)]
proof fn lemma_parse_storage_eval(s: Seq<char>, pos: int, v: StorageView, total: int)
    requires
        0 <= pos,
        pos + total <= s.len(),
        ({
            let t1 = enc_scalars(v.wk_name, v.wk_date, v.wk_place, v.wk_responsible_person,
                v.wk_judgesmeeting_time);
            let t3 = "\"wk_replacement_judges\":"@;
            let t4 = enc_str_list(v.wk_replacement_judges);
            let t6 = "\"wk_judgingtables\":"@;
            let t7 = enc_table_map(v.wk_judgingtables);
            let p15 = pos + t1.len();
            let p16 = p15 + 1;
            let p17 = p16 + t3.len();
            let p18 = p17 + t4.len();
            let p19 = p18 + 1;
            let p20 = p19 + t6.len();
            let p21 = p20 + t7.len();
            let p22 = p21 + 1;
            &&& s.subrange(pos, p15) == t1
            &&& s.subrange(p15, p16) == seq![',']
            &&& s.subrange(p16, p17) == t3
            &&& s.subrange(p17, p18) == t4
            &&& s.subrange(p18, p19) == seq![',']
            &&& s.subrange(p19, p20) == t6
            &&& s.subrange(p20, p21) == t7
            &&& s.subrange(p21, p22) == seq!['}']
            &&& p22 == pos + total
        }),
    ensures
        parse_storage(s, pos) == Some((v, pos + total)),
{
    let t1 = enc_scalars(
        v.wk_name,
        v.wk_date,
        v.wk_place,
        v.wk_responsible_person,
        v.wk_judgesmeeting_time,
    );
    let t3 = "\"wk_replacement_judges\":"@;
    let t4 = enc_str_list(v.wk_replacement_judges);
    let t6 = "\"wk_judgingtables\":"@;
    let t7 = enc_table_map(v.wk_judgingtables);
    let p15 = pos + t1.len();
    let p16 = p15 + 1;
    let p17 = p16 + t3.len();
    let p18 = p17 + t4.len();
    let p19 = p18 + 1;
    let p20 = p19 + t6.len();
    let p21 = p20 + t7.len();
    let p22 = p21 + 1;
    lemma_parse_scalars_of(
        s,
        pos,
        v.wk_name,
        v.wk_date,
        v.wk_place,
        v.wk_responsible_person,
        v.wk_judgesmeeting_time,
    );
    lemma_char_at(s, p15, seq![','], 0);
    assert(parse_char(s, p15, ',') == Some(p16));
    assert(parse_lit(s, p16, "\"wk_replacement_judges\":"@) == Some(p17));
    lemma_parse_str_list_of(s, p17, v.wk_replacement_judges);
    lemma_char_at(s, p18, seq![','], 0);
    assert(parse_char(s, p18, ',') == Some(p19));
    assert(parse_lit(s, p19, "\"wk_judgingtables\":"@) == Some(p20));
    lemma_parse_table_map_of(s, p20, v.wk_judgingtables);
    lemma_char_at(s, p21, seq!['}'], 0);
    assert(parse_char(s, p21, '}') == Some(p22));
    assert(v =~= StorageView {
        wk_name: v.wk_name,
        wk_date: v.wk_date,
        wk_place: v.wk_place,
        wk_responsible_person: v.wk_responsible_person,
        wk_judgesmeeting_time: v.wk_judgesmeeting_time,
        wk_replacement_judges: v.wk_replacement_judges,
        wk_judgingtables: v.wk_judgingtables,
    });
}

/// An encoded competition record parses back to the record.
proof fn lemma_parse_storage_of(s: Seq<char>, pos: int, v: StorageView)
    requires
        0 <= pos,
        pos + enc_storage(v).len() <= s.len(),
        s.subrange(pos, pos + enc_storage(v).len()) == enc_storage(v),
    ensures
        parse_storage(s, pos) == Some((v, pos + enc_storage(v).len())),
{
    lemma_storage_tokens(s, pos, v);
    lemma_parse_storage_eval(s, pos, v, enc_storage(v).len() as int);
}

/// Round trip: every competition record, encoded and parsed back, comes out
/// unchanged — same scalar fields, same keys and per-key contents in both
/// mappings — and the parse consumes the whole text.
pub proof fn lemma_encode_parse_round_trip(v: StorageView)
    ensures
        parse_storage(enc_storage(v), 0) == Some((v, enc_storage(v).len() as int)),
{
    let s = enc_storage(v);
    assert(s.subrange(0, s.len() as int) =~= s);
    lemma_parse_storage_of(s, 0, v);
}

} // verus!
