//! The tokenizer: splits a raw byte sequence into alternating delimiter and
//! data tokens, given a set of delimiter byte values.
use vstd::prelude::*;

use crate::byteset::{byte_set_contains, byte_set_elems};

verus! {

/// One token of the delimiter/data alternation.  Every delimiter byte of the
/// input becomes its own `Delim` token; every maximal run of other bytes
/// becomes one `Data` token.
#[derive(Debug)]
pub enum Token {
    Delim(u8),
    Data(Vec<u8>),
}

/// The mathematical shape of a token: a `Data` token is just its bytes.
pub enum TokenView {
    Delim(u8),
    Data(Seq<u8>),
}

impl View for Token {
    type V = TokenView;

    open spec fn view(&self) -> TokenView {
        match self {
            Token::Delim(b) => TokenView::Delim(*b),
            Token::Data(d) => TokenView::Data(d@),
        }
    }
}

impl DeepView for Token {
    type V = TokenView;

    open spec fn deep_view(&self) -> TokenView {
        self.view()
    }
}

#[derive(PartialEq, Eq, Structural, Clone, Copy)]
enum ParsingState {
    Delim,
    Data,
}

/// The length of the data run at the head of `data`: how many bytes stand
/// before the first delimiter byte.
pub open spec fn run_len(data: Seq<u8>, delims: Set<u8>) -> nat
    decreases data.len(),
{
    if data.len() == 0 || delims.contains(data[0]) {
        0
    } else {
        1 + run_len(data.drop_first(), delims)
    }
}

/// The token sequence for `data`: every delimiter byte becomes its own
/// `Delim` token, every maximal run of other bytes one `Data` token.
pub open spec fn spec_tokenize(data: Seq<u8>, delims: Set<u8>) -> Seq<TokenView>
    decreases data.len(),
    via spec_tokenize_decreases
{
    if data.len() == 0 {
        Seq::empty()
    } else if delims.contains(data[0]) {
        seq![TokenView::Delim(data[0])] + spec_tokenize(data.drop_first(), delims)
    } else {
        seq![TokenView::Data(data.take(run_len(data, delims) as int))] + spec_tokenize(
            data.skip(run_len(data, delims) as int),
            delims,
        )
    }
}

#[via_fn]
proof fn spec_tokenize_decreases(data: Seq<u8>, delims: Set<u8>) {
    lemma_run_len(data, delims);
}

/// The head run stops within the input, at a delimiter if not at the end.
pub proof fn lemma_run_len(data: Seq<u8>, delims: Set<u8>)
    ensures
        run_len(data, delims) <= data.len(),
        forall|k: int| 0 <= k < run_len(data, delims) ==> !delims.contains(#[trigger] data[k]),
        run_len(data, delims) < data.len() ==> delims.contains(
            data[run_len(data, delims) as int],
        ),
    decreases data.len(),
{
    if data.len() == 0 || delims.contains(data[0]) {
    } else {
        lemma_run_len(data.drop_first(), delims);
        assert forall|k: int| 0 <= k < run_len(data, delims) implies !delims.contains(
            #[trigger] data[k],
        ) by {
            if k > 0 {
                assert(data.drop_first()[k - 1] == data[k]);
            }
        }
        if run_len(data, delims) < data.len() {
            assert(data.drop_first()[run_len(data.drop_first(), delims) as int] == data[run_len(
                data,
                delims,
            ) as int]);
        }
    }
}

/// The head run is whatever stretch of the input is delimiter-free and ends
/// at a delimiter or at the end of the input.
pub proof fn lemma_run_len_is(data: Seq<u8>, delims: Set<u8>, m: int)
    requires
        0 <= m <= data.len(),
        forall|k: int| 0 <= k < m ==> !delims.contains(#[trigger] data[k]),
        m < data.len() ==> delims.contains(data[m]),
    ensures
        run_len(data, delims) == m,
    decreases data.len(),
{
    if m == 0 {
    } else {
        assert(!delims.contains(data[0]));
        assert forall|k: int| 0 <= k < m - 1 implies !delims.contains(
            #[trigger] data.drop_first()[k],
        ) by {
            assert(data.drop_first()[k] == data[k + 1]);
        }
        if m - 1 < data.drop_first().len() {
            assert(data.drop_first()[m - 1] == data[m]);
        }
        lemma_run_len_is(data.drop_first(), delims, m - 1);
    }
}

/// The bytes a single token stands for.
pub open spec fn token_bytes(t: TokenView) -> Seq<u8> {
    match t {
        TokenView::Delim(b) => seq![b],
        TokenView::Data(d) => d,
    }
}

/// The bytes a token sequence stands for, in order.
pub open spec fn tokens_bytes(ts: Seq<TokenView>) -> Seq<u8>
    decreases ts.len(),
{
    if ts.len() == 0 {
        Seq::empty()
    } else {
        token_bytes(ts[0]) + tokens_bytes(ts.drop_first())
    }
}

proof fn lemma_tokens_bytes_cons(t: TokenView, ts: Seq<TokenView>)
    ensures
        tokens_bytes(seq![t] + ts) == token_bytes(t) + tokens_bytes(ts),
{
    assert((seq![t] + ts).drop_first() =~= ts);
    assert((seq![t] + ts)[0] == t);
}

/// Law: tokenizing loses nothing.  For any byte sequence and any non-empty
/// delimiter set, concatenating the bytes of the emitted tokens in order
/// reconstructs the input exactly.
pub proof fn lemma_tokenize_round_trip(data: Seq<u8>, delims: Set<u8>)
    requires
        exists|d: u8| delims.contains(d),
    ensures
        tokens_bytes(spec_tokenize(data, delims)) == data,
    decreases data.len(),
{
    if data.len() == 0 {
        assert(tokens_bytes(spec_tokenize(data, delims)) =~= data);
    } else if delims.contains(data[0]) {
        lemma_tokenize_round_trip(data.drop_first(), delims);
        lemma_tokens_bytes_cons(
            TokenView::Delim(data[0]),
            spec_tokenize(data.drop_first(), delims),
        );
        assert(seq![data[0]] + data.drop_first() =~= data);
    } else {
        let n = run_len(data, delims) as int;
        lemma_run_len(data, delims);
        lemma_tokenize_round_trip(data.skip(n), delims);
        lemma_tokens_bytes_cons(
            TokenView::Data(data.take(n)),
            spec_tokenize(data.skip(n), delims),
        );
        assert(data.take(n) + data.skip(n) =~= data);
    }
}

/// Law: a delimiter byte always closes whatever stands before it.  The
/// tokens of the whole input are the tokens of the prefix, one `Delim`
/// token, and the tokens of the remainder.
pub proof fn lemma_tokenize_split_at_delim(data: Seq<u8>, delims: Set<u8>, i: int)
    requires
        0 <= i < data.len(),
        delims.contains(data[i]),
    ensures
        spec_tokenize(data, delims) == spec_tokenize(data.take(i), delims) + seq![
            TokenView::Delim(data[i]),
        ] + spec_tokenize(data.skip(i + 1), delims),
    decreases data.len(),
{
    let whole = spec_tokenize(data, delims);
    if i == 0 {
        assert(data.take(0) =~= Seq::<u8>::empty());
        assert(data.drop_first() =~= data.skip(1));
        assert(whole =~= spec_tokenize(data.take(0), delims) + seq![TokenView::Delim(data[0])]
            + spec_tokenize(data.skip(1), delims));
    } else if delims.contains(data[0]) {
        let rest = data.drop_first();
        lemma_tokenize_split_at_delim(rest, delims, i - 1);
        assert(rest[i - 1] == data[i]);
        assert(rest.take(i - 1) =~= data.take(i).drop_first());
        assert(rest.skip(i) =~= data.skip(i + 1));
        assert(data.take(i)[0] == data[0]);
        assert(spec_tokenize(data.take(i), delims) == seq![TokenView::Delim(data[0])]
            + spec_tokenize(data.take(i).drop_first(), delims));
        assert(whole =~= spec_tokenize(data.take(i), delims) + seq![TokenView::Delim(data[i])]
            + spec_tokenize(data.skip(i + 1), delims));
    } else {
        let n = run_len(data, delims) as int;
        lemma_run_len(data, delims);
        assert(n <= i) by {
            if n > i {
                assert(!delims.contains(data[i]));
            }
        }
        let tail = data.skip(n);
        assert(tail[i - n] == data[i]);
        lemma_tokenize_split_at_delim(tail, delims, i - n);
        assert(tail.skip(i - n + 1) =~= data.skip(i + 1));
        assert(tail.take(i - n) =~= data.take(i).skip(n));
        // the prefix keeps the same head run
        let pre = data.take(i);
        assert forall|k: int| 0 <= k < n implies !delims.contains(#[trigger] pre[k]) by {
            assert(pre[k] == data[k]);
        }
        if n < pre.len() {
            assert(pre[n] == data[n]);
        }
        lemma_run_len_is(pre, delims, n);
        assert(pre.take(n) =~= data.take(n));
        assert(spec_tokenize(pre, delims) == seq![TokenView::Data(data.take(n))]
            + spec_tokenize(pre.skip(n), delims));
        assert(whole =~= spec_tokenize(pre, delims) + seq![TokenView::Delim(data[i])]
            + spec_tokenize(data.skip(i + 1), delims));
    }
}

/// Law: two consecutive delimiter bytes produce two adjacent `Delim` tokens,
/// with no `Data` token between them.
pub proof fn lemma_consecutive_delims(data: Seq<u8>, delims: Set<u8>, i: int)
    requires
        0 <= i,
        i + 1 < data.len(),
        delims.contains(data[i]),
        delims.contains(data[i + 1]),
    ensures
        ({
            let ts = spec_tokenize(data, delims);
            let j = spec_tokenize(data.take(i), delims).len() as int;
            &&& j + 1 < ts.len()
            &&& ts[j] == TokenView::Delim(data[i])
            &&& ts[j + 1] == TokenView::Delim(data[i + 1])
        }),
{
    lemma_tokenize_split_at_delim(data, delims, i);
    let rest = data.skip(i + 1);
    assert(rest[0] == data[i + 1]);
    assert(spec_tokenize(rest, delims) == seq![TokenView::Delim(rest[0])] + spec_tokenize(
        rest.drop_first(),
        delims,
    ));
}

/// Splits `data` into alternating delimiter and data tokens.  Scans left to
/// right: a delimiter byte closes any open data run and is emitted on its
/// own; other bytes extend the current run; a trailing open run is flushed.
pub fn tokenize(data: &[u8], tokens: &im::HashSet<u8>) -> (r: Vec<Token>)
    ensures
        r.deep_view() == spec_tokenize(data@, byte_set_elems(*tokens)),
{
    let ghost delims = byte_set_elems(*tokens);
    let mut vec: Vec<Token> = Vec::new();

    let mut start_data: usize = 0;
    let mut i: usize = 0;
    let mut parsing_state = ParsingState::Delim;

    proof {
        assert(data@.skip(0) =~= data@);
        assert(vec.deep_view() =~= Seq::<TokenView>::empty());
        assert(Seq::<TokenView>::empty() + spec_tokenize(data@, delims) =~= spec_tokenize(
            data@,
            delims,
        ));
    }

    while i < data.len()
        invariant
            i <= data.len(),
            delims == byte_set_elems(*tokens),
            parsing_state == ParsingState::Delim ==> spec_tokenize(data@, delims)
                == vec.deep_view() + spec_tokenize(data@.skip(i as int), delims),
            parsing_state == ParsingState::Data ==> {
                &&& start_data < i
                &&& forall|k: int|
                    start_data <= k < i ==> !delims.contains(#[trigger] data@[k])
                &&& spec_tokenize(data@, delims) == vec.deep_view() + spec_tokenize(
                    data@.skip(start_data as int),
                    delims,
                )
            },
        decreases data.len() - i,
    {
        if byte_set_contains(tokens, data[i]) {
            if parsing_state == ParsingState::Data && i > 0 {
                let run = vstd::slice::slice_subrange(data, start_data, i);
                let ghost old_vec = vec.deep_view();
                vec.push(Token::Data(vstd::slice::slice_to_vec(run)));
                proof {
                    let s = data@.skip(start_data as int);
                    assert forall|k: int| 0 <= k < i - start_data implies !delims.contains(
                        #[trigger] s[k],
                    ) by {
                        assert(s[k] == data@[start_data + k]);
                    }
                    assert(s[i - start_data] == data@[i as int]);
                    lemma_run_len_is(s, delims, i - start_data);
                    assert(s.take(i - start_data) =~= data@.subrange(
                        start_data as int,
                        i as int,
                    ));
                    assert(s.skip(i - start_data) =~= data@.skip(i as int));
                    assert(vec.deep_view() =~= old_vec + seq![
                        TokenView::Data(data@.subrange(start_data as int, i as int)),
                    ]);
                    assert(spec_tokenize(data@, delims) == vec.deep_view() + spec_tokenize(
                        data@.skip(i as int),
                        delims,
                    ));
                }
            }
            let ghost old_vec = vec.deep_view();
            vec.push(Token::Delim(data[i]));
            proof {
                let s = data@.skip(i as int);
                assert(s[0] == data@[i as int]);
                assert(s.drop_first() =~= data@.skip(i as int + 1));
                assert(vec.deep_view() =~= old_vec + seq![TokenView::Delim(data@[i as int])]);
            }
            parsing_state = ParsingState::Delim;
        } else if parsing_state == ParsingState::Delim {
            start_data = i;
            parsing_state = ParsingState::Data;
        }
        i = i + 1;
    }

    if parsing_state == ParsingState::Data {
        let run = vstd::slice::slice_subrange(data, start_data, data.len());
        let ghost old_vec = vec.deep_view();
        vec.push(Token::Data(vstd::slice::slice_to_vec(run)));
        proof {
            let s = data@.skip(start_data as int);
            assert forall|k: int| 0 <= k < s.len() implies !delims.contains(
                #[trigger] s[k],
            ) by {
                assert(s[k] == data@[start_data + k]);
            }
            lemma_run_len_is(s, delims, s.len() as int);
            assert(s.take(s.len() as int) =~= data@.subrange(
                start_data as int,
                data@.len() as int,
            ));
            assert(s.skip(s.len() as int) =~= Seq::<u8>::empty());
            assert(vec.deep_view() =~= old_vec + seq![
                TokenView::Data(data@.subrange(start_data as int, data@.len() as int)),
            ]);
        }
    }

    proof {
        assert(data@.skip(data@.len() as int) =~= Seq::<u8>::empty());
        assert(vec.deep_view() =~= spec_tokenize(data@, delims));
    }
    vec
}

} // verus!
