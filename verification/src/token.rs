//! Top-level tokens of a declaration, and the text of a run of them.
//!
//! A declaration is handled as the sequence of its outermost tokens. A
//! delimited group counts as one token whose text holds the delimiters and
//! everything between them. A token that is glued is written without a space
//! before its successor, as for the two halves of `->`.

use vstd::prelude::*;

verus! {

/// One outermost token of a declaration.
#[derive(Clone, Debug)]
pub struct Token {
    /// The token as it is written.
    pub text: String,
    /// Whether the next token follows without a space.
    pub glued: bool,
}

/// The mathematical value of a [`Token`].
pub struct TokenView {
    pub text: Seq<char>,
    pub glued: bool,
}

impl DeepView for Token {
    type V = TokenView;

    open spec fn deep_view(&self) -> TokenView {
        TokenView { text: self.text@, glued: self.glued }
    }
}

/// What separates the tokens of `front` from a token that follows them.
pub open spec fn separator(front: Seq<TokenView>) -> Seq<char> {
    if front.len() == 0 || front.last().glued {
        Seq::empty()
    } else {
        " "@
    }
}

/// The text of a run of tokens: the tokens in order, a single space between
/// two neighbours unless the first of them is glued.
pub open spec fn run_text(tokens: Seq<TokenView>) -> Seq<char>
    decreases tokens.len(),
{
    if tokens.len() == 0 {
        Seq::empty()
    } else {
        run_text(tokens.drop_last()) + separator(tokens.drop_last()) + tokens.last().text
    }
}

/// The keyword that marks a declaration as requiring an elevated-trust context.
pub open spec fn marker_text() -> Seq<char> {
    "unsafe"@
}

/// The marker as a token.
pub open spec fn marker_token() -> TokenView {
    TokenView { text: marker_text(), glued: false }
}

/// Whether `token` is one of the two keywords that a qualifier slot precedes.
pub open spec fn anchors(token: TokenView, first: Seq<char>, second: Seq<char>) -> bool {
    token.text == first || token.text == second
}

/// The index of the first token that is one of the two anchor keywords, or the
/// length of the run when there is none. The marker belongs directly before it.
pub open spec fn slot(tokens: Seq<TokenView>, first: Seq<char>, second: Seq<char>) -> int
    decreases tokens.len(),
{
    if tokens.len() == 0 {
        0
    } else if anchors(tokens[0], first, second) {
        0
    } else {
        1 + slot(tokens.skip(1), first, second)
    }
}

/// Whether the marker already stands in the slot of `tokens`.
pub open spec fn elevated(tokens: Seq<TokenView>, first: Seq<char>, second: Seq<char>) -> bool {
    let at = slot(tokens, first, second);
    at > 0 && tokens[at - 1].text == marker_text()
}

/// `tokens` with the marker in its slot: unchanged where it already stands
/// there, else with the marker inserted directly before the anchor keyword.
pub open spec fn elevate(tokens: Seq<TokenView>, first: Seq<char>, second: Seq<char>) -> Seq<
    TokenView,
> {
    if elevated(tokens, first, second) {
        tokens
    } else {
        tokens.insert(slot(tokens, first, second), marker_token())
    }
}

/// The slot lies within the run, no token before it is an anchor, and the
/// token at it, if any, is one.
pub proof fn lemma_slot(tokens: Seq<TokenView>, first: Seq<char>, second: Seq<char>)
    ensures
        0 <= slot(tokens, first, second) <= tokens.len(),
        forall|j: int|
            0 <= j < slot(tokens, first, second) ==> !anchors(#[trigger] tokens[j], first, second),
        slot(tokens, first, second) < tokens.len() ==> anchors(
            tokens[slot(tokens, first, second)],
            first,
            second,
        ),
    decreases tokens.len(),
{
    if tokens.len() > 0 && !anchors(tokens[0], first, second) {
        let rest = tokens.skip(1);
        lemma_slot(rest, first, second);
        assert forall|j: int| 0 <= j < slot(tokens, first, second) implies !anchors(
            #[trigger] tokens[j],
            first,
            second,
        ) by {
            if j > 0 {
                assert(tokens[j] == rest[j - 1]);
            }
        }
        if slot(tokens, first, second) < tokens.len() {
            assert(tokens[slot(tokens, first, second)] == rest[slot(rest, first, second)]);
        }
    }
}

/// An index with no anchor before it, and with an anchor at it unless it is
/// the end of the run, is the slot.
pub proof fn lemma_slot_unique(
    tokens: Seq<TokenView>,
    first: Seq<char>,
    second: Seq<char>,
    at: int,
)
    requires
        0 <= at <= tokens.len(),
        forall|j: int| 0 <= j < at ==> !anchors(#[trigger] tokens[j], first, second),
        at < tokens.len() ==> anchors(tokens[at], first, second),
    ensures
        slot(tokens, first, second) == at,
{
    lemma_slot(tokens, first, second);
    let found = slot(tokens, first, second);
    if found < at {
        assert(!anchors(tokens[found], first, second));
    } else if at < found {
        assert(anchors(tokens[at], first, second));
    }
}

/// Once the marker has been put into its slot it stands there, provided that
/// the marker is not itself one of the anchors.
pub proof fn lemma_elevate_is_elevated(
    tokens: Seq<TokenView>,
    first: Seq<char>,
    second: Seq<char>,
)
    requires
        first != marker_text(),
        second != marker_text(),
    ensures
        elevated(elevate(tokens, first, second), first, second),
        elevate(elevate(tokens, first, second), first, second) == elevate(tokens, first, second),
{
    if !elevated(tokens, first, second) {
        lemma_slot(tokens, first, second);
        let at = slot(tokens, first, second);
        let marked = tokens.insert(at, marker_token());
        assert forall|j: int| 0 <= j < at + 1 implies !anchors(
            #[trigger] marked[j],
            first,
            second,
        ) by {
            if j < at {
                assert(marked[j] == tokens[j]);
            }
        }
        if at < tokens.len() {
            assert(marked[at + 1] == tokens[at]);
        }
        lemma_slot_unique(marked, first, second, at + 1);
    }
}

/// Whether the text of `token` is exactly `word`.
pub fn token_is(token: &Token, word: &str) -> (r: bool)
    ensures
        r == (token.text@ == word@),
{
    let other = String::from_str(word);
    token.text == other
}

/// The index returned is the qualifier slot of `tokens` for the two anchors.
pub fn find_slot(tokens: &Vec<Token>, first: &str, second: &str) -> (at: usize)
    ensures
        at == slot(tokens.deep_view(), first@, second@),
        at <= tokens.len(),
{
    let mut at: usize = 0;
    while at < tokens.len() && !(token_is(&tokens[at], first) || token_is(&tokens[at], second))
        invariant
            at <= tokens.len(),
            forall|j: int|
                0 <= j < at ==> !anchors(#[trigger] tokens.deep_view()[j], first@, second@),
        decreases tokens.len() - at,
    {
        at = at + 1;
    }
    proof {
        lemma_slot_unique(tokens.deep_view(), first@, second@, at as int);
    }
    at
}

/// Puts the marker into the slot of `tokens` unless it stands there already.
pub fn mark(tokens: Vec<Token>, first: &str, second: &str) -> (r: Vec<Token>)
    ensures
        r.deep_view() == elevate(tokens.deep_view(), first@, second@),
{
    let at = find_slot(&tokens, first, second);
    if at > 0 && token_is(&tokens[at - 1], "unsafe") {
        tokens
    } else {
        let mut marked = tokens;
        marked.insert(at, Token { text: String::from_str("unsafe"), glued: false });
        assert(marked.deep_view() =~= tokens.deep_view().insert(at as int, marker_token()));
        marked
    }
}

/// Writes a run of tokens as text.
pub fn join(tokens: &Vec<Token>) -> (r: String)
    ensures
        r@ == run_text(tokens.deep_view()),
{
    let mut out = String::new();
    let mut done: usize = 0;
    while done < tokens.len()
        invariant
            done <= tokens.len(),
            out@ == run_text(tokens.deep_view().take(done as int)),
        decreases tokens.len() - done,
    {
        let ghost before = tokens.deep_view().take(done as int);
        let ghost after = tokens.deep_view().take(done + 1);
        assert(after.drop_last() =~= before);
        assert(after.last() == tokens.deep_view()[done as int]);
        if done > 0 && !tokens[done - 1].glued {
            out.append(" ");
        }
        out.append(tokens[done].text.as_str());
        done = done + 1;
    }
    assert(tokens.deep_view().take(done as int) =~= tokens.deep_view());
    out
}

} // verus!
