//! The MSDP structured-data decoder: a recursive-descent parser over the
//! token stream of a sub-negotiation payload, building one key/value tree.
use vstd::prelude::*;

use crate::byteset::{byte_set_elems, byte_set_insert, byte_set_new};
use crate::error::DecodeError;
use crate::lexer::{spec_tokenize, tokenize, Token, TokenView};
use crate::state::{TelnetOut, TelnetOutView};
use vstd::string::StrSliceExecFns;
use vstd::utf8::{decode_utf8, encode_utf8, valid_utf8};

verus! {

broadcast use
    vstd::std_specs::vec::axiom_vec_index_decreases,
    vstd::std_specs::vec::axiom_vec_decreases_to_view,
;

pub const MSDP_VAR: u8 = 1;
pub const MSDP_VAL: u8 = 2;
pub const MSDP_TABLE_OPEN: u8 = 3;
pub const MSDP_TABLE_CLOSE: u8 = 4;
pub const MSDP_ARRAY_OPEN: u8 = 5;
pub const MSDP_ARRAY_CLOSE: u8 = 6;

/// One decoded sub-negotiation payload: a top-level variable and its value.
#[derive(Debug)]
pub struct MsdpData {
    pub key: String,
    pub value: MsdpVal,
}

/// A decoded MSDP value: a scalar string, an ordered array of values, or a
/// table of key/value pairs in source order (duplicate keys are preserved).
#[derive(Debug)]
pub enum MsdpVal {
    Value(String),
    Array(Vec<MsdpVal>),
    Table(Vec<(String, MsdpVal)>),
}

/// The mathematical shape of a decoded MSDP value.
pub enum MsdpValView {
    Value(Seq<char>),
    Array(Seq<MsdpValView>),
    Table(Seq<(Seq<char>, MsdpValView)>),
}

/// The mathematical shape of a decoded payload.
pub struct MsdpDataView {
    pub key: Seq<char>,
    pub value: MsdpValView,
}

/// The mathematical shape of a decoded value.
pub open spec fn view_of_val(v: MsdpVal) -> MsdpValView
    decreases v, 0int,
{
    match v {
        MsdpVal::Value(s) => MsdpValView::Value(s@),
        MsdpVal::Array(vs) => MsdpValView::Array(views_of_vals(vs@, 0)),
        MsdpVal::Table(ps) => MsdpValView::Table(views_of_pairs(ps@, 0)),
    }
}

/// The shapes of the values of `vs` from index `i` on, in order.
pub open spec fn views_of_vals(vs: Seq<MsdpVal>, i: int) -> Seq<MsdpValView>
    decreases vs, vs.len() - i + 1,
{
    if 0 <= i < vs.len() {
        seq![view_of_val(vs[i])] + views_of_vals(vs, i + 1)
    } else {
        Seq::empty()
    }
}

/// The shapes of the key/value pairs of `ps` from index `i` on, in order.
pub open spec fn views_of_pairs(ps: Seq<(String, MsdpVal)>, i: int) -> Seq<
    (Seq<char>, MsdpValView),
>
    decreases ps, ps.len() - i + 1,
{
    if 0 <= i < ps.len() {
        seq![(ps[i].0@, view_of_val(ps[i].1))] + views_of_pairs(ps, i + 1)
    } else {
        Seq::empty()
    }
}

impl DeepView for MsdpVal {
    type V = MsdpValView;

    open spec fn deep_view(&self) -> MsdpValView {
        view_of_val(*self)
    }
}

impl DeepView for MsdpData {
    type V = MsdpDataView;

    open spec fn deep_view(&self) -> MsdpDataView {
        MsdpDataView { key: self.key@, value: view_of_val(self.value) }
    }
}

/// Appending a value extends the element views by that value's view.
proof fn lemma_views_of_vals_push(vs: Seq<MsdpVal>, v: MsdpVal, i: int)
    requires
        0 <= i <= vs.len(),
    ensures
        views_of_vals(vs.push(v), i) == views_of_vals(vs, i) + seq![view_of_val(v)],
    decreases vs.len() - i,
{
    if i < vs.len() {
        lemma_views_of_vals_push(vs, v, i + 1);
        assert(vs.push(v)[i] == vs[i]);
        assert(seq![view_of_val(vs[i])] + (views_of_vals(vs, i + 1) + seq![view_of_val(v)])
            =~= (seq![view_of_val(vs[i])] + views_of_vals(vs, i + 1)) + seq![view_of_val(v)]);
    } else {
        assert(vs.push(v)[i] == v);
        assert(views_of_vals(vs.push(v), i + 1) =~= Seq::<MsdpValView>::empty());
        assert(views_of_vals(vs, i) =~= Seq::<MsdpValView>::empty());
        assert(seq![view_of_val(v)] + Seq::<MsdpValView>::empty() =~= seq![view_of_val(v)]);
        assert(Seq::<MsdpValView>::empty() + seq![view_of_val(v)] =~= seq![view_of_val(v)]);
    }
}

/// Appending a pair extends the pair views by that pair's view.
proof fn lemma_views_of_pairs_push(ps: Seq<(String, MsdpVal)>, p: (String, MsdpVal), i: int)
    requires
        0 <= i <= ps.len(),
    ensures
        views_of_pairs(ps.push(p), i) == views_of_pairs(ps, i) + seq![(p.0@, view_of_val(p.1))],
    decreases ps.len() - i,
{
    let pv = (p.0@, view_of_val(p.1));
    if i < ps.len() {
        lemma_views_of_pairs_push(ps, p, i + 1);
        assert(ps.push(p)[i] == ps[i]);
        assert(seq![(ps[i].0@, view_of_val(ps[i].1))] + (views_of_pairs(ps, i + 1) + seq![pv])
            =~= (seq![(ps[i].0@, view_of_val(ps[i].1))] + views_of_pairs(ps, i + 1)) + seq![pv]);
    } else {
        assert(ps.push(p)[i] == p);
        assert(views_of_pairs(ps.push(p), i + 1) =~= Seq::<(Seq<char>, MsdpValView)>::empty());
        assert(views_of_pairs(ps, i) =~= Seq::<(Seq<char>, MsdpValView)>::empty());
        assert(seq![pv] + Seq::<(Seq<char>, MsdpValView)>::empty() =~= seq![pv]);
        assert(Seq::<(Seq<char>, MsdpValView)>::empty() + seq![pv] =~= seq![pv]);
    }
}

/// The six MSDP control bytes, the delimiters of the token stream.
pub open spec fn msdp_delims() -> Set<u8> {
    set![MSDP_VAR, MSDP_VAL, MSDP_TABLE_OPEN, MSDP_TABLE_CLOSE, MSDP_ARRAY_OPEN, MSDP_ARRAY_CLOSE]
}

/// What parsing `VAR <name>` at `pos` yields: the decoded name and the index
/// of the first token after it, or the error the decoder reports there.
pub open spec fn s_parse_var(ts: Seq<TokenView>, pos: int) -> Result<
    (Seq<char>, int),
    DecodeError,
> {
    if !(0 <= pos < ts.len() && ts[pos] == TokenView::Delim(MSDP_VAR)) {
        Err(DecodeError::ExpectedVar)
    } else if !(pos + 1 < ts.len()) {
        Err(DecodeError::ExpectedVarData)
    } else {
        match ts[pos + 1] {
            TokenView::Data(d) => if valid_utf8(d) {
                Ok((decode_utf8(d), pos + 2))
            } else {
                Err(DecodeError::InvalidUtf8)
            },
            TokenView::Delim(_) => Err(DecodeError::ExpectedVarData),
        }
    }
}

/// What parsing `VAL <value>` at `pos` yields: the token after `VAL` decides
/// between a scalar, a nested array, and a nested table.
pub open spec fn s_parse_value(ts: Seq<TokenView>, pos: int) -> Result<
    (MsdpValView, int),
    DecodeError,
>
    decreases ts.len() - pos, 1int,
{
    if !(0 <= pos < ts.len() && ts[pos] == TokenView::Delim(MSDP_VAL)) {
        Err(DecodeError::ExpectedVal)
    } else if !(pos + 1 < ts.len()) {
        Err(DecodeError::Malformed)
    } else {
        match ts[pos + 1] {
            TokenView::Delim(d) => if d == MSDP_TABLE_OPEN {
                match s_parse_pairs(ts, pos + 2) {
                    Ok((ps, q)) => Ok((MsdpValView::Table(ps), q)),
                    Err(e) => Err(e),
                }
            } else if d == MSDP_ARRAY_OPEN {
                match s_parse_elems(ts, pos + 2) {
                    Ok((vs, q)) => Ok((MsdpValView::Array(vs), q)),
                    Err(e) => Err(e),
                }
            } else {
                Err(DecodeError::Malformed)
            },
            TokenView::Data(d) => if valid_utf8(d) {
                Ok((MsdpValView::Value(decode_utf8(d)), pos + 2))
            } else {
                Err(DecodeError::InvalidUtf8)
            },
        }
    }
}

/// What parsing an array body at `pos` yields: `VAL`-prefixed elements until
/// the matching `ARRAY_CLOSE`, which is consumed.
pub open spec fn s_parse_elems(ts: Seq<TokenView>, pos: int) -> Result<
    (Seq<MsdpValView>, int),
    DecodeError,
>
    decreases ts.len() - pos, 2int,
{
    if !(0 <= pos < ts.len()) {
        Err(DecodeError::UnterminatedArray)
    } else if ts[pos] == TokenView::Delim(MSDP_ARRAY_CLOSE) {
        Ok((Seq::empty(), pos + 1))
    } else {
        match s_parse_value(ts, pos) {
            Ok((v, p)) => if pos < p <= ts.len() {
                match s_parse_elems(ts, p) {
                    Ok((vs, q)) => Ok((seq![v] + vs, q)),
                    Err(e) => Err(e),
                }
            } else {
                // never reached: a parsed value always advances in bounds
                Err(DecodeError::UnterminatedArray)
            },
            Err(e) => Err(e),
        }
    }
}

/// What parsing a table body at `pos` yields: `VAR` key / `VAL` value pairs
/// in source order until the matching `TABLE_CLOSE`, which is consumed.
pub open spec fn s_parse_pairs(ts: Seq<TokenView>, pos: int) -> Result<
    (Seq<(Seq<char>, MsdpValView)>, int),
    DecodeError,
>
    decreases ts.len() - pos, 2int,
{
    if !(0 <= pos < ts.len()) {
        Err(DecodeError::UnterminatedTable)
    } else if ts[pos] == TokenView::Delim(MSDP_TABLE_CLOSE) {
        Ok((Seq::empty(), pos + 1))
    } else {
        match s_parse_var(ts, pos) {
            Ok((k, p1)) => if pos < p1 <= ts.len() {
                match s_parse_value(ts, p1) {
                    Ok((v, p2)) => if p1 < p2 <= ts.len() {
                        match s_parse_pairs(ts, p2) {
                            Ok((ps, q)) => Ok((seq![(k, v)] + ps, q)),
                            Err(e) => Err(e),
                        }
                    } else {
                        // never reached: a parsed value always advances in bounds
                        Err(DecodeError::UnterminatedTable)
                    },
                    Err(e) => Err(e),
                }
            } else {
                // never reached: a parsed variable always advances in bounds
                Err(DecodeError::UnterminatedTable)
            },
            Err(e) => Err(e),
        }
    }
}

/// What parsing a whole token stream yields: one `VAR <name>` then one
/// `VAL <value>`; trailing tokens are ignored.
pub open spec fn s_parse_tokens(ts: Seq<TokenView>) -> Result<MsdpDataView, DecodeError> {
    match s_parse_var(ts, 0) {
        Ok((k, _)) => match s_parse_value(ts, 2) {
            Ok((v, _)) => Ok(MsdpDataView { key: k, value: v }),
            Err(e) => Err(e),
        },
        Err(e) => Err(e),
    }
}

/// What decoding a whole payload yields: tokenize on the six control bytes,
/// then parse the token stream.
pub open spec fn s_parse_msdp(data: Seq<u8>) -> Result<MsdpDataView, DecodeError> {
    s_parse_tokens(spec_tokenize(data, msdp_delims()))
}

/// A successful parse always advances and stays within the token stream.
pub proof fn lemma_parse_positions(ts: Seq<TokenView>, pos: int)
    ensures
        s_parse_var(ts, pos) matches Ok(r) ==> r.1 == pos + 2 && pos + 2 <= ts.len(),
        s_parse_value(ts, pos) matches Ok(r) ==> pos < r.1 <= ts.len(),
        s_parse_elems(ts, pos) matches Ok(r) ==> pos < r.1 <= ts.len(),
        s_parse_pairs(ts, pos) matches Ok(r) ==> pos < r.1 <= ts.len(),
    decreases ts.len() - pos, 3int,
{
    if 0 <= pos < ts.len() {
        if pos + 1 < ts.len() {
            lemma_parse_positions(ts, pos + 2);
        }
        // s_parse_value's bound now holds; chase the chained calls of the
        // array and table bodies, which start at positions past `pos`.
        if ts[pos] != TokenView::Delim(MSDP_ARRAY_CLOSE) {
            if let Ok((v, p)) = s_parse_value(ts, pos) {
                lemma_parse_positions(ts, p);
            }
        }
        if ts[pos] != TokenView::Delim(MSDP_TABLE_CLOSE) {
            if let Ok((k, p1)) = s_parse_var(ts, pos) {
                if let Ok((v, p2)) = s_parse_value(ts, p1) {
                    lemma_parse_positions(ts, p2);
                }
            }
        }
    }
}

/// Relies on std's str::from_utf8: it accepts exactly the valid UTF-8 byte
/// sequences and decodes them per the UTF-8 standard.
#[verifier::external_body]
fn str_from_utf8(data: &[u8]) -> (r: Option<&str>)
    ensures
        r is Some <==> valid_utf8(data@),
        r matches Some(s) ==> s@ == decode_utf8(data@),
{
    std::str::from_utf8(data).ok()
}

/// Decodes a byte slice as UTF-8 text, or reports the bytes invalid.
pub fn string_from_u8(data: &[u8]) -> (r: Result<String, DecodeError>)
    ensures
        valid_utf8(data@) ==> (r matches Ok(s) && s@ == decode_utf8(data@)),
        !valid_utf8(data@) ==> r == Err::<String, DecodeError>(DecodeError::InvalidUtf8),
{
    match str_from_utf8(data) {
        Some(s) => Ok(s.to_owned()),
        None => Err(DecodeError::InvalidUtf8),
    }
}

/// The token at `pos`, if there is one.
fn token_at<'a>(tokens: &'a Vec<Token>, pos: usize) -> (r: Option<&'a Token>)
    ensures
        pos < tokens.len() ==> (r matches Some(t) && *t == tokens[pos as int]),
        pos >= tokens.len() ==> r is None,
{
    if pos < tokens.len() {
        Some(&tokens[pos])
    } else {
        None
    }
}

/// True when the token at hand is the expected delimiter.
pub fn is_delim(value: &Option<&Token>, expected: u8) -> (r: bool)
    ensures
        r == ((*value) matches Some(t) && t@ == TokenView::Delim(expected)),
{
    match value {
        Some(Token::Delim(found)) => *found == expected,
        _ => false,
    }
}

/// Parses `VAR <name>` at `pos`: the variable's decoded name and the index
/// of the first token after it.
pub fn parse_var(tokens: &Vec<Token>, pos: usize) -> (r: Result<(String, usize), DecodeError>)
    ensures
        match r {
            Ok(p) => s_parse_var(tokens.deep_view(), pos as int) == Ok::<
                (Seq<char>, int),
                DecodeError,
            >((p.0@, p.1 as int)),
            Err(e) => s_parse_var(tokens.deep_view(), pos as int) == Err::<
                (Seq<char>, int),
                DecodeError,
            >(e),
        },
{
    let ghost ts = tokens.deep_view();
    proof {
        if (pos as int) < ts.len() {
            assert(ts[pos as int] == tokens[pos as int].deep_view());
        }
    }
    if !is_delim(&token_at(tokens, pos), MSDP_VAR) {
        return Err(DecodeError::ExpectedVar);
    }
    proof {
        if pos as int + 1 < ts.len() {
            assert(ts[pos as int + 1] == tokens[pos as int + 1].deep_view());
        }
    }
    match token_at(tokens, pos + 1) {
        Some(t) => match t {
            Token::Data(d) => match string_from_u8(d.as_slice()) {
                Ok(s) => Ok((s, pos + 2)),
                Err(e) => Err(e),
            },
            _ => Err(DecodeError::ExpectedVarData),
        },
        None => Err(DecodeError::ExpectedVarData),
    }
}

/// Parses `VAL <value>` at `pos`: the token after `VAL` decides between a
/// scalar datum, a nested array, and a nested table.
pub fn parse_value(tokens: &Vec<Token>, pos: usize) -> (r: Result<(MsdpVal, usize), DecodeError>)
    ensures
        match r {
            Ok(p) => s_parse_value(tokens.deep_view(), pos as int) == Ok::<
                (MsdpValView, int),
                DecodeError,
            >((p.0.deep_view(), p.1 as int)),
            Err(e) => s_parse_value(tokens.deep_view(), pos as int) == Err::<
                (MsdpValView, int),
                DecodeError,
            >(e),
        },
    decreases tokens.len() - pos, 1int,
{
    let ghost ts = tokens.deep_view();
    proof {
        if (pos as int) < ts.len() {
            assert(ts[pos as int] == tokens[pos as int].deep_view());
        }
    }
    if !is_delim(&token_at(tokens, pos), MSDP_VAL) {
        return Err(DecodeError::ExpectedVal);
    }
    proof {
        if pos as int + 1 < ts.len() {
            assert(ts[pos as int + 1] == tokens[pos as int + 1].deep_view());
        }
    }
    match token_at(tokens, pos + 1) {
        None => Err(DecodeError::Malformed),
        Some(t) => match t {
            Token::Delim(d) => {
                if *d == MSDP_TABLE_OPEN {
                    parse_table(tokens, pos + 2)
                } else if *d == MSDP_ARRAY_OPEN {
                    parse_array(tokens, pos + 2)
                } else {
                    Err(DecodeError::Malformed)
                }
            },
            Token::Data(d) => match string_from_u8(d.as_slice()) {
                Ok(s) => Ok((MsdpVal::Value(s), pos + 2)),
                Err(e) => Err(e),
            },
        },
    }
}

/// The parse of the array body from `pos` is the elements gathered so far
/// followed by whatever the parse from `i` on yields.
spec fn elems_continue(ts: Seq<TokenView>, pos: int, acc: Seq<MsdpValView>, i: int) -> bool {
    match s_parse_elems(ts, i) {
        Ok(r) => s_parse_elems(ts, pos) == Ok::<(Seq<MsdpValView>, int), DecodeError>(
            (acc + r.0, r.1),
        ),
        Err(e) => s_parse_elems(ts, pos) == Err::<(Seq<MsdpValView>, int), DecodeError>(e),
    }
}

/// Parses an array body at `pos`: `VAL`-prefixed elements until the matching
/// `ARRAY_CLOSE`, which is consumed.
pub fn parse_array(tokens: &Vec<Token>, pos: usize) -> (r: Result<(MsdpVal, usize), DecodeError>)
    ensures
        match r {
            Ok(p) => s_parse_elems(tokens.deep_view(), pos as int) matches Ok(pr)
                && p.0.deep_view() == MsdpValView::Array(pr.0) && pr.1 == p.1 as int,
            Err(e) => s_parse_elems(tokens.deep_view(), pos as int) == Err::<
                (Seq<MsdpValView>, int),
                DecodeError,
            >(e),
        },
    decreases tokens.len() - pos, 2int,
{
    let ghost ts = tokens.deep_view();
    let mut values: Vec<MsdpVal> = Vec::new();
    let mut i: usize = pos;

    proof {
        assert(views_of_vals(values@, 0) =~= Seq::<MsdpValView>::empty());
        if let Ok(r0) = s_parse_elems(ts, pos as int) {
            assert(Seq::<MsdpValView>::empty() + r0.0 =~= r0.0);
        }
    }

    while i < tokens.len() && !is_delim(&token_at(tokens, i), MSDP_ARRAY_CLOSE)
        invariant
            ts == tokens.deep_view(),
            pos <= i,
            elems_continue(ts, pos as int, views_of_vals(values@, 0), i as int),
        decreases tokens.len() - i,
    {
        proof {
            assert(ts[i as int] == tokens[i as int].deep_view());
        }
        match parse_value(tokens, i) {
            Ok(p) => {
                let (val, next_pos) = p;
                let ghost old_values = values@;
                proof {
                    lemma_parse_positions(ts, i as int);
                }
                values.push(val);
                proof {
                    lemma_views_of_vals_push(old_values, val, 0);
                    if let Ok(rn) = s_parse_elems(ts, next_pos as int) {
                        assert(views_of_vals(old_values, 0) + (seq![view_of_val(val)] + rn.0)
                            =~= (views_of_vals(old_values, 0) + seq![view_of_val(val)]) + rn.0);
                    }
                }
                i = next_pos;
            },
            Err(e) => {
                return Err(e);
            },
        }
    }

    proof {
        if (i as int) < ts.len() {
            assert(ts[i as int] == tokens[i as int].deep_view());
        }
    }
    if !is_delim(&token_at(tokens, i), MSDP_ARRAY_CLOSE) {
        return Err(DecodeError::UnterminatedArray);
    }
    proof {
        assert(views_of_vals(values@, 0) + Seq::<MsdpValView>::empty() =~= views_of_vals(
            values@,
            0,
        ));
    }
    Ok((MsdpVal::Array(values), i + 1))
}

/// The parse of the table body from `pos` is the pairs gathered so far
/// followed by whatever the parse from `i` on yields.
spec fn pairs_continue(
    ts: Seq<TokenView>,
    pos: int,
    acc: Seq<(Seq<char>, MsdpValView)>,
    i: int,
) -> bool {
    match s_parse_pairs(ts, i) {
        Ok(r) => s_parse_pairs(ts, pos) == Ok::<(Seq<(Seq<char>, MsdpValView)>, int), DecodeError>(
            (acc + r.0, r.1),
        ),
        Err(e) => s_parse_pairs(ts, pos) == Err::<
            (Seq<(Seq<char>, MsdpValView)>, int),
            DecodeError,
        >(e),
    }
}

/// Parses a table body at `pos`: `VAR` key / `VAL` value pairs, in source
/// order and with duplicates kept, until the matching `TABLE_CLOSE`, which
/// is consumed.
pub fn parse_table(tokens: &Vec<Token>, pos: usize) -> (r: Result<(MsdpVal, usize), DecodeError>)
    ensures
        match r {
            Ok(p) => s_parse_pairs(tokens.deep_view(), pos as int) matches Ok(pr)
                && p.0.deep_view() == MsdpValView::Table(pr.0) && pr.1 == p.1 as int,
            Err(e) => s_parse_pairs(tokens.deep_view(), pos as int) == Err::<
                (Seq<(Seq<char>, MsdpValView)>, int),
                DecodeError,
            >(e),
        },
    decreases tokens.len() - pos, 2int,
{
    let ghost ts = tokens.deep_view();
    let mut values: Vec<(String, MsdpVal)> = Vec::new();
    let mut i: usize = pos;

    proof {
        assert(views_of_pairs(values@, 0) =~= Seq::<(Seq<char>, MsdpValView)>::empty());
        if let Ok(r0) = s_parse_pairs(ts, pos as int) {
            assert(Seq::<(Seq<char>, MsdpValView)>::empty() + r0.0 =~= r0.0);
        }
    }

    while i < tokens.len() && !is_delim(&token_at(tokens, i), MSDP_TABLE_CLOSE)
        invariant
            ts == tokens.deep_view(),
            pos <= i,
            pairs_continue(ts, pos as int, views_of_pairs(values@, 0), i as int),
        decreases tokens.len() - i,
    {
        proof {
            assert(ts[i as int] == tokens[i as int].deep_view());
        }
        let key = match parse_var(tokens, i) {
            Ok(p) => p,
            Err(e) => {
                return Err(e);
            },
        };
        proof {
            lemma_parse_positions(ts, i as int);
        }
        match parse_value(tokens, key.1) {
            Ok(p) => {
                let (val, next_pos2) = p;
                let ghost old_values = values@;
                proof {
                    lemma_parse_positions(ts, key.1 as int);
                }
                let entry = (key.0, val);
                values.push(entry);
                proof {
                    lemma_views_of_pairs_push(old_values, entry, 0);
                    let pv = (entry.0@, view_of_val(entry.1));
                    if let Ok(rn) = s_parse_pairs(ts, next_pos2 as int) {
                        assert(views_of_pairs(old_values, 0) + (seq![pv] + rn.0)
                            =~= (views_of_pairs(old_values, 0) + seq![pv]) + rn.0);
                    }
                }
                i = next_pos2;
            },
            Err(e) => {
                return Err(e);
            },
        }
    }

    proof {
        if (i as int) < ts.len() {
            assert(ts[i as int] == tokens[i as int].deep_view());
        }
    }
    if !is_delim(&token_at(tokens, i), MSDP_TABLE_CLOSE) {
        return Err(DecodeError::UnterminatedTable);
    }
    proof {
        assert(views_of_pairs(values@, 0) + Seq::<(Seq<char>, MsdpValView)>::empty()
            =~= views_of_pairs(values@, 0));
    }
    Ok((MsdpVal::Table(values), i + 1))
}

/// Decodes one payload from its token stream: a top-level `VAR <name>`
/// followed by one `VAL <value>`; trailing tokens are ignored.
pub fn parse_tokens(tokens: &Vec<Token>) -> (r: Result<MsdpData, DecodeError>)
    ensures
        match r {
            Ok(d) => s_parse_tokens(tokens.deep_view()) == Ok::<MsdpDataView, DecodeError>(
                d.deep_view(),
            ),
            Err(e) => s_parse_tokens(tokens.deep_view()) == Err::<MsdpDataView, DecodeError>(e),
        },
{
    let key = match parse_var(tokens, 0) {
        Ok(p) => p.0,
        Err(e) => {
            return Err(e);
        },
    };
    let value = match parse_value(tokens, 2) {
        Ok(p) => p.0,
        Err(e) => {
            return Err(e);
        },
    };
    Ok(MsdpData { key, value })
}

/// Decodes one MSDP sub-negotiation payload: tokenizes on the six control
/// bytes, then parses the token stream.
pub fn parse_msdp(data: &[u8]) -> (r: Result<MsdpData, DecodeError>)
    ensures
        match r {
            Ok(d) => s_parse_msdp(data@) == Ok::<MsdpDataView, DecodeError>(d.deep_view()),
            Err(e) => s_parse_msdp(data@) == Err::<MsdpDataView, DecodeError>(e),
        },
{
    let mut delims = byte_set_new();
    byte_set_insert(&mut delims, MSDP_VAR);
    byte_set_insert(&mut delims, MSDP_VAL);
    byte_set_insert(&mut delims, MSDP_TABLE_OPEN);
    byte_set_insert(&mut delims, MSDP_TABLE_CLOSE);
    byte_set_insert(&mut delims, MSDP_ARRAY_OPEN);
    byte_set_insert(&mut delims, MSDP_ARRAY_CLOSE);
    proof {
        assert(byte_set_elems(delims) =~= msdp_delims());
    }
    let tokens = tokenize(data, &delims);
    parse_tokens(&tokens)
}

/// The MSDP sub-negotiation that reports one key/value pair: `VAR` then the
/// key's bytes, `VAL` then the value's bytes.
pub fn send_key_val(k: &String, v: &String) -> (out: TelnetOut)
    ensures
        out@ matches TelnetOutView::Subnegotiate(opt, payload) && opt == crate::options::MSDP
            && payload == seq![MSDP_VAR] + encode_utf8(k@) + seq![MSDP_VAL] + encode_utf8(v@),
{
    let mut payload: Vec<u8> = Vec::new();
    payload.push(MSDP_VAR);
    let mut key_bytes = k.as_str().as_bytes_vec();
    payload.append(&mut key_bytes);
    payload.push(MSDP_VAL);
    let mut val_bytes = v.as_str().as_bytes_vec();
    payload.append(&mut val_bytes);
    proof {
        assert(payload@ =~= seq![MSDP_VAR] + encode_utf8(k@) + seq![MSDP_VAL] + encode_utf8(v@));
    }
    TelnetOut::Subnegotiate(crate::options::MSDP, payload)
}

} // verus!
