//! Rust tokens, as far as the description of a foreign type needs them.
//!
//! The library does not read text. Whoever calls it hands over the tokens
//! of a description, one after the other; the delimiters of a group are
//! tokens of their own, so that a group is the run from an opening
//! delimiter to the closing delimiter that pairs with it.

use vstd::prelude::*;

verus! {

/// The delimiters of a group.
#[derive(Clone, Copy, Debug, PartialEq, Eq, Structural)]
pub enum Delim {
    /// `( ... )`
    Paren,
    /// `{ ... }`
    Brace,
    /// `[ ... ]`
    Bracket,
}

/// One token.
#[derive(Clone, Debug, PartialEq, Eq)]
pub enum Token {
    /// An identifier or a keyword.
    Ident(String),
    /// A literal.
    Literal(String),
    /// One punctuation character, and whether the next token follows it
    /// without a space, as the first `:` of `::` does.
    Punct(String, bool),
    /// The opening delimiter of a group.
    Open(Delim),
    /// The closing delimiter of a group.
    Close(Delim),
}

/// What a [`Token`] is in contracts.
pub enum TokenSpec {
    Ident(Seq<char>),
    Literal(Seq<char>),
    Punct(Seq<char>, bool),
    Open(Delim),
    Close(Delim),
}

impl View for Token {
    type V = TokenSpec;

    open spec fn view(&self) -> TokenSpec {
        match *self {
            Token::Ident(text) => TokenSpec::Ident(text@),
            Token::Literal(text) => TokenSpec::Literal(text@),
            Token::Punct(text, joint) => TokenSpec::Punct(text@, joint),
            Token::Open(delim) => TokenSpec::Open(delim),
            Token::Close(delim) => TokenSpec::Close(delim),
        }
    }
}

/// The views of a sequence of tokens.
pub open spec fn views(tokens: Seq<Token>) -> Seq<TokenSpec> {
    Seq::new(tokens.len(), |i: int| tokens[i]@)
}

/// Whether `token` is the identifier or keyword `word`.
pub open spec fn is_word(token: TokenSpec, word: Seq<char>) -> bool {
    token == TokenSpec::Ident(word)
}

/// Whether `token` is the punctuation character `mark`.
pub open spec fn is_punct(token: TokenSpec, mark: Seq<char>) -> bool {
    token matches TokenSpec::Punct(text, _) && text == mark
}

/// Whether `token` is the punctuation character `mark` and the next token
/// follows it without a space.
pub open spec fn is_joint(token: TokenSpec, mark: Seq<char>) -> bool {
    token == TokenSpec::Punct(mark, true)
}

/// Whether `token` opens a group with `delim`.
pub open spec fn is_open(token: TokenSpec, delim: Delim) -> bool {
    token == TokenSpec::Open(delim)
}

/// Whether `token` closes a group with `delim`.
pub open spec fn is_close(token: TokenSpec, delim: Delim) -> bool {
    token == TokenSpec::Close(delim)
}

/// Whether `text` holds exactly the characters of `word`.
pub fn text_is(text: &String, word: &str) -> (same: bool)
    ensures
        same == (text@ == word@),
{
    let other = String::from_str(word);
    *text == other
}

impl Token {
    /// Whether this token is the identifier or keyword `word`.
    pub fn is_word(&self, word: &str) -> (yes: bool)
        ensures
            yes == is_word(self@, word@),
    {
        match self {
            Token::Ident(text) => text_is(text, word),
            _ => false,
        }
    }

    /// Whether this token is the punctuation character `mark`.
    pub fn is_punct(&self, mark: &str) -> (yes: bool)
        ensures
            yes == is_punct(self@, mark@),
    {
        match self {
            Token::Punct(text, _) => text_is(text, mark),
            _ => false,
        }
    }

    /// Whether this token is the punctuation character `mark`, joined to
    /// the token after it.
    pub fn is_joint(&self, mark: &str) -> (yes: bool)
        ensures
            yes == is_joint(self@, mark@),
    {
        match self {
            Token::Punct(text, true) => text_is(text, mark),
            _ => false,
        }
    }

    /// Whether this token opens a group with `delim`.
    pub fn is_open(&self, delim: Delim) -> (yes: bool)
        ensures
            yes == is_open(self@, delim),
    {
        match self {
            Token::Open(d) => *d == delim,
            _ => false,
        }
    }

    /// Whether this token closes a group with `delim`.
    pub fn is_close(&self, delim: Delim) -> (yes: bool)
        ensures
            yes == is_close(self@, delim),
    {
        match self {
            Token::Close(d) => *d == delim,
            _ => false,
        }
    }

    /// The text of this token.
    pub fn text(&self) -> (out: String)
        ensures
            out@ == token_text(self@),
    {
        match self {
            Token::Ident(text) => text.clone(),
            Token::Literal(text) => text.clone(),
            Token::Punct(text, _) => text.clone(),
            Token::Open(Delim::Paren) => String::from_str("("),
            Token::Open(Delim::Brace) => String::from_str("{"),
            Token::Open(Delim::Bracket) => String::from_str("["),
            Token::Close(Delim::Paren) => String::from_str(")"),
            Token::Close(Delim::Brace) => String::from_str("}"),
            Token::Close(Delim::Bracket) => String::from_str("]"),
        }
    }

    /// A token equal to this one.
    pub fn copy(&self) -> (out: Token)
        ensures
            out@ == self@,
    {
        match self {
            Token::Ident(text) => Token::Ident(text.clone()),
            Token::Literal(text) => Token::Literal(text.clone()),
            Token::Punct(text, joint) => Token::Punct(text.clone(), *joint),
            Token::Open(delim) => Token::Open(*delim),
            Token::Close(delim) => Token::Close(*delim),
        }
    }
}

/// The opening delimiter of a group.
pub open spec fn opener(delim: Delim) -> Seq<char> {
    match delim {
        Delim::Paren => "("@,
        Delim::Brace => "{"@,
        Delim::Bracket => "["@,
    }
}

/// The closing delimiter of a group.
pub open spec fn closer(delim: Delim) -> Seq<char> {
    match delim {
        Delim::Paren => ")"@,
        Delim::Brace => "}"@,
        Delim::Bracket => "]"@,
    }
}

/// The text of one token.
pub open spec fn token_text(token: TokenSpec) -> Seq<char> {
    match token {
        TokenSpec::Ident(text) => text,
        TokenSpec::Literal(text) => text,
        TokenSpec::Punct(text, _) => text,
        TokenSpec::Open(delim) => opener(delim),
        TokenSpec::Close(delim) => closer(delim),
    }
}

/// What stands between `token` and the token after it: nothing after a
/// punctuation character that the next token joins, a space otherwise.
pub open spec fn gap_after(token: TokenSpec) -> Seq<char> {
    if token matches TokenSpec::Punct(_, joint) && joint {
        Seq::empty()
    } else {
        " "@
    }
}

/// The text of a run of tokens: the tokens' texts in order, each separated
/// from the next by [`gap_after`].
pub open spec fn rendered(tokens: Seq<TokenSpec>) -> Seq<char>
    decreases tokens.len(),
{
    if tokens.len() == 0 {
        Seq::empty()
    } else if tokens.len() == 1 {
        token_text(tokens[0])
    } else {
        rendered(tokens.drop_last()) + gap_after(tokens[tokens.len() - 2]) + token_text(
            tokens.last(),
        )
    }
}

/// The text of the tokens from index `from` up to, not including, `to`.
pub fn render(tokens: &Vec<Token>, from: usize, to: usize) -> (out: String)
    requires
        from <= to <= tokens.len(),
    ensures
        out@ == rendered(views(tokens@).subrange(from as int, to as int)),
{
    let ghost all = views(tokens@);
    let mut out = String::new();
    let mut i: usize = from;
    while i < to
        invariant
            from <= i <= to <= tokens.len(),
            all == views(tokens@),
            out@ == rendered(all.subrange(from as int, i as int)),
        decreases to - i,
    {
        proof {
            let next = all.subrange(from as int, i + 1);
            assert(next.drop_last() =~= all.subrange(from as int, i as int));
            assert(next.last() == tokens@[i as int]@);
            if i > from {
                assert(next[next.len() - 2] == tokens@[i - 1]@);
            }
        }
        if i > from {
            match &tokens[i - 1] {
                Token::Punct(_, true) => {},
                _ => {
                    out.append(" ");
                },
            }
        }
        let piece = tokens[i].text();
        out.append(piece.as_str());
        proof {
            if i == from {
                assert(out@ =~= token_text(tokens@[i as int]@));
            }
        }
        i = i + 1;
    }
    proof {
        assert(all.subrange(from as int, from as int).len() == 0);
    }
    out
}

/// The tokens from index `from` up to, not including, `to`.
pub fn slice(tokens: &Vec<Token>, from: usize, to: usize) -> (out: Vec<Token>)
    requires
        from <= to <= tokens.len(),
    ensures
        views(out@) == views(tokens@).subrange(from as int, to as int),
{
    let mut out: Vec<Token> = Vec::new();
    let mut i: usize = from;
    while i < to
        invariant
            from <= i <= to <= tokens.len(),
            out@.len() == i - from,
            forall|k: int| 0 <= k < out@.len() ==> (#[trigger] out@[k])@ == tokens@[from + k]@,
        decreases to - i,
    {
        out.push(tokens[i].copy());
        i = i + 1;
    }
    proof {
        assert(views(out@) =~= views(tokens@).subrange(from as int, to as int));
    }
    out
}

/// Whether `token` is the word `text` or, with `punct`, the punctuation
/// character `text`.
pub open spec fn token_matches(token: TokenSpec, punct: bool, text: Seq<char>) -> bool {
    if punct {
        is_punct(token, text)
    } else {
        is_word(token, text)
    }
}

/// The index of the first token at or after `from` that matches and stands
/// in no group that was opened at or after `from`, where `depth` groups are
/// open at `from`. It is the number of tokens where there is none before
/// the tokens end or a group closes that was open at `from`.
pub open spec fn first_at_depth(
    tokens: Seq<TokenSpec>,
    from: int,
    depth: nat,
    punct: bool,
    text: Seq<char>,
) -> int
    decreases tokens.len() - from,
{
    if from < 0 || from >= tokens.len() {
        tokens.len() as int
    } else {
        match tokens[from] {
            TokenSpec::Open(_) => first_at_depth(tokens, from + 1, depth + 1, punct, text),
            TokenSpec::Close(_) => if depth == 0 {
                tokens.len() as int
            } else {
                first_at_depth(tokens, from + 1, (depth - 1) as nat, punct, text)
            },
            token => if depth == 0 && token_matches(token, punct, text) {
                from
            } else {
                first_at_depth(tokens, from + 1, depth, punct, text)
            },
        }
    }
}

/// The index of the first token at or after `from`, outside any group that
/// opens there or later, that is the word `text` (or, with `punct`, the
/// punctuation character `text`); the number of tokens where there is
/// none.
pub open spec fn first_match(tokens: Seq<TokenSpec>, from: int, punct: bool, text: Seq<char>) -> int {
    first_at_depth(tokens, from, 0, punct, text)
}

/// The index of the closing delimiter, at or after `from`, of the group of
/// which `depth` further groups are open at `from`; the number of tokens
/// where the group is not closed.
pub open spec fn close_at_depth(tokens: Seq<TokenSpec>, from: int, depth: nat) -> int
    decreases tokens.len() - from,
{
    if from < 0 || from >= tokens.len() {
        tokens.len() as int
    } else {
        match tokens[from] {
            TokenSpec::Open(_) => close_at_depth(tokens, from + 1, depth + 1),
            TokenSpec::Close(_) => if depth == 0 {
                from
            } else {
                close_at_depth(tokens, from + 1, (depth - 1) as nat)
            },
            _ => close_at_depth(tokens, from + 1, depth),
        }
    }
}

/// The index of the delimiter that closes the group whose first inner
/// token is at `from`; the number of tokens where the group is not closed.
pub open spec fn close_of(tokens: Seq<TokenSpec>, from: int) -> int {
    close_at_depth(tokens, from, 0)
}

/// The first match is at or after the index from which it is sought, and
/// it matches.
pub proof fn first_at_depth_bounds(
    tokens: Seq<TokenSpec>,
    from: int,
    depth: nat,
    punct: bool,
    text: Seq<char>,
)
    requires
        0 <= from <= tokens.len(),
    ensures
        from <= first_at_depth(tokens, from, depth, punct, text) <= tokens.len(),
        first_at_depth(tokens, from, depth, punct, text) < tokens.len() ==> token_matches(
            tokens[first_at_depth(tokens, from, depth, punct, text)],
            punct,
            text,
        ),
    decreases tokens.len() - from,
{
    if from < tokens.len() {
        match tokens[from] {
            TokenSpec::Open(_) => first_at_depth_bounds(tokens, from + 1, depth + 1, punct, text),
            TokenSpec::Close(_) => if depth > 0 {
                first_at_depth_bounds(tokens, from + 1, (depth - 1) as nat, punct, text)
            },
            token => if !(depth == 0 && token_matches(token, punct, text)) {
                first_at_depth_bounds(tokens, from + 1, depth, punct, text)
            },
        }
    }
}

/// The closing delimiter is at or after the index from which it is sought,
/// and it is a closing delimiter.
pub proof fn close_at_depth_bounds(tokens: Seq<TokenSpec>, from: int, depth: nat)
    requires
        0 <= from <= tokens.len(),
    ensures
        from <= close_at_depth(tokens, from, depth) <= tokens.len(),
        close_at_depth(tokens, from, depth) < tokens.len() ==> tokens[close_at_depth(
            tokens,
            from,
            depth,
        )] is Close,
    decreases tokens.len() - from,
{
    if from < tokens.len() {
        match tokens[from] {
            TokenSpec::Open(_) => close_at_depth_bounds(tokens, from + 1, depth + 1),
            TokenSpec::Close(_) => if depth > 0 {
                close_at_depth_bounds(tokens, from + 1, (depth - 1) as nat)
            },
            _ => close_at_depth_bounds(tokens, from + 1, depth),
        }
    }
}

/// Finds the first token at or after `from`, outside any group that opens
/// there or later, that is the word `text` or, with `punct`, the
/// punctuation character `text`.
pub fn find(tokens: &Vec<Token>, from: usize, punct: bool, text: &str) -> (at: usize)
    requires
        from <= tokens.len(),
    ensures
        at == first_match(views(tokens@), from as int, punct, text@),
        from <= at <= tokens.len(),
        at < tokens.len() ==> token_matches(tokens@[at as int]@, punct, text@),
{
    let ghost all = views(tokens@);
    proof {
        first_at_depth_bounds(all, from as int, 0, punct, text@);
    }
    let mut i: usize = from;
    let mut depth: usize = 0;
    while i < tokens.len()
        invariant
            from <= i <= tokens.len(),
            depth <= i - from,
            all == views(tokens@),
            first_at_depth(all, from as int, 0, punct, text@) == first_at_depth(
                all,
                i as int,
                depth as nat,
                punct,
                text@,
            ),
        decreases tokens.len() - i,
    {
        match &tokens[i] {
            Token::Open(_) => {
                depth = depth + 1;
            },
            Token::Close(_) => {
                if depth == 0 {
                    return tokens.len();
                }
                depth = depth - 1;
            },
            token => {
                let hit = if punct {
                    token.is_punct(text)
                } else {
                    token.is_word(text)
                };
                if depth == 0 && hit {
                    return i;
                }
            },
        }
        i = i + 1;
    }
    i
}

/// Finds the delimiter that closes the group whose first inner token is at
/// `from`.
pub fn find_close(tokens: &Vec<Token>, from: usize) -> (at: usize)
    requires
        from <= tokens.len(),
    ensures
        at == close_of(views(tokens@), from as int),
        from <= at <= tokens.len(),
        at < tokens.len() ==> tokens@[at as int]@ is Close,
{
    let ghost all = views(tokens@);
    proof {
        close_at_depth_bounds(all, from as int, 0);
    }
    let mut i: usize = from;
    let mut depth: usize = 0;
    while i < tokens.len()
        invariant
            from <= i <= tokens.len(),
            depth <= i - from,
            all == views(tokens@),
            close_at_depth(all, from as int, 0) == close_at_depth(all, i as int, depth as nat),
        decreases tokens.len() - i,
    {
        match &tokens[i] {
            Token::Open(_) => {
                depth = depth + 1;
            },
            Token::Close(_) => {
                if depth == 0 {
                    return i;
                }
                depth = depth - 1;
            },
            _ => {},
        }
        i = i + 1;
    }
    i
}

} // verus!
