//! The description of a foreign type, and how it is read.
//!
//! A description has the form
//!
//! ```text
//! /// Documentation and other attributes.
//! pub type Thing: Sync + Send {
//!     type CType = thing_sys::thing;
//!     fn drop = thing_sys::thing_free;
//!     fn clone = thing_sys::thing_dup;
//! }
//! ```
//!
//! The capabilities after the name and the `fn clone` line are optional;
//! everything else is required. A description that lacks a part, names a
//! capability twice or one other than `Sync` and `Send`, or declares
//! anything after `fn clone` is rejected with a [`ConfigurationError`].

use crate::grammar::{
    admitted, assignment_at, attrs_at, body_of, capabilities_at, capability_of, colons_at,
    ctype_at, fn_at, is_restriction, is_visibility, module_path_at, oibits_at, path_at, refusal,
    refused, reserved, segment, type_at, type_at_advances, types_from, types_of,
};
use crate::syntax::{check_expr_path, check_path, askable};
use crate::token::{
    find, find_close, is_punct, render, slice, text_is, views, Delim, Token,
};
use vstd::prelude::*;

verus! {

/// Why a description was rejected.
#[derive(Clone, Copy, Debug, PartialEq, Eq, Structural)]
pub enum ConfigurationError {
    /// The path to this library, under which the emitted code names the
    /// library's items, is not a path.
    CratePath,
    /// An attribute is not a `#` and a group in square brackets that begins
    /// with a path.
    Attribute,
    /// The keyword `type` is missing, or what stands before it is not a
    /// visibility.
    Visibility,
    /// The name of the type is missing or is not an identifier.
    Name,
    /// A capability is not `Sync` or `Send` or is named twice, or the list
    /// of capabilities is not made of capabilities separated by `+`.
    Capability,
    /// The group in braces that declares the foreign type and its functions
    /// is missing.
    Body,
    /// The line `type CType = path;` is missing or malformed.
    CType,
    /// The destructor is absent: the line `fn drop = path;` is missing or
    /// malformed.
    Destructor,
    /// The duplicator is declared inconsistently: what follows the
    /// destructor is not one line `fn clone = path;` and nothing else.
    Duplicator,
}

impl ConfigurationError {
    /// What this error says, in contracts.
    pub open spec fn spec_message(self) -> Seq<char> {
        match self {
            ConfigurationError::CratePath => "the path to the library is not a path"@,
            ConfigurationError::Attribute => "expected an attribute: `#` and a group in square brackets"@,
            ConfigurationError::Visibility => "expected a visibility and `type`"@,
            ConfigurationError::Name => "expected the name of the type"@,
            ConfigurationError::Capability => "expected `Sync` or `Send`, each once, separated by `+`"@,
            ConfigurationError::Body => "expected a group in braces"@,
            ConfigurationError::CType => "expected `type CType = path;`"@,
            ConfigurationError::Destructor => "expected `fn drop = path;`"@,
            ConfigurationError::Duplicator => "expected `fn clone = path;` and nothing after it"@,
        }
    }

    /// What this error says, for the author of the description.
    pub fn message(&self) -> (out: &'static str)
        ensures
            out@ == self.spec_message(),
    {
        match self {
            ConfigurationError::CratePath => "the path to the library is not a path",
            ConfigurationError::Attribute => "expected an attribute: `#` and a group in square brackets",
            ConfigurationError::Visibility => "expected a visibility and `type`",
            ConfigurationError::Name => "expected the name of the type",
            ConfigurationError::Capability => "expected `Sync` or `Send`, each once, separated by `+`",
            ConfigurationError::Body => "expected a group in braces",
            ConfigurationError::CType => "expected `type CType = path;`",
            ConfigurationError::Destructor => "expected `fn drop = path;`",
            ConfigurationError::Duplicator => "expected `fn clone = path;` and nothing after it",
        }
    }
}

/// A marker that the author of a description declares of the foreign type,
/// and that the emitted types then carry unchecked.
#[derive(Clone, Copy, Debug, PartialEq, Eq, Structural)]
pub enum Capability {
    /// The resource may be shared between threads.
    Sync,
    /// The resource may be sent to another thread.
    Send,
}

/// The description of one foreign type.
#[derive(Clone, Debug, PartialEq, Eq)]
pub struct ForeignType {
    /// The attributes of the owned type, documentation among them.
    pub attrs: Vec<String>,
    /// The visibility of both emitted types; empty for a private type.
    pub visibility: String,
    /// The name of the owned type.
    pub name: String,
    /// The declared capabilities, in the order of the description, each
    /// once.
    pub oibits: Vec<Capability>,
    /// The path of the foreign type.
    pub ctype: String,
    /// The path of the destructor.
    pub drop: String,
    /// The path of the duplicator, if the resource has one.
    pub clone: Option<String>,
}

/// What was read from the input of one expansion: the path to this library
/// and the descriptions.
#[derive(Clone, Debug, PartialEq, Eq)]
pub struct Input {
    /// The path under which the emitted code names the library's items.
    pub crate_: String,
    /// The descriptions, in the order of the input.
    pub types: Vec<ForeignType>,
}

/// What a [`ForeignType`] is in contracts.
pub struct ForeignTypeSpec {
    pub attrs: Seq<Seq<char>>,
    pub visibility: Seq<char>,
    pub name: Seq<char>,
    pub oibits: Seq<Capability>,
    pub ctype: Seq<char>,
    pub drop: Seq<char>,
    pub clone: Option<Seq<char>>,
}

/// What an [`Input`] is in contracts.
pub struct InputSpec {
    pub crate_: Seq<char>,
    pub types: Seq<ForeignTypeSpec>,
}

impl ForeignTypeSpec {
    /// What the library itself sees to in a description that it accepts:
    /// the name is not reserved, the capabilities are a set (none occurs
    /// twice), and every path may be asked of `syn`.
    pub open spec fn valid(self) -> bool {
        &&& !reserved(self.name)
        &&& self.oibits.no_duplicates()
        &&& askable(self.ctype)
        &&& askable(self.drop)
        &&& (self.clone matches Some(path) ==> askable(path))
    }
}

impl InputSpec {
    /// Whether the path to the library may be asked of `syn` and every
    /// description is valid.
    pub open spec fn valid(self) -> bool {
        &&& askable(self.crate_)
        &&& forall|i: int| 0 <= i < self.types.len() ==> (#[trigger] self.types[i]).valid()
    }
}

/// The views of a sequence of strings.
pub open spec fn texts(strings: Seq<String>) -> Seq<Seq<char>> {
    Seq::new(strings.len(), |i: int| strings[i]@)
}

/// The views of a sequence of descriptions.
pub open spec fn type_views(types: Seq<ForeignType>) -> Seq<ForeignTypeSpec> {
    Seq::new(types.len(), |i: int| types[i]@)
}

/// The view of an optional string.
pub open spec fn text_option(text: Option<String>) -> Option<Seq<char>> {
    match text {
        Some(t) => Some(t@),
        None => None,
    }
}

impl View for ForeignType {
    type V = ForeignTypeSpec;

    open spec fn view(&self) -> ForeignTypeSpec {
        ForeignTypeSpec {
            attrs: texts(self.attrs@),
            visibility: self.visibility@,
            name: self.name@,
            oibits: self.oibits@,
            ctype: self.ctype@,
            drop: self.drop@,
            clone: text_option(self.clone),
        }
    }
}

impl View for Input {
    type V = InputSpec;

    open spec fn view(&self) -> InputSpec {
        InputSpec { crate_: self.crate_@, types: type_views(self.types@) }
    }
}

/// The capability that `name` names.
pub open spec fn capability_named(name: Seq<char>) -> Option<Capability> {
    if name == "Sync"@ {
        Some(Capability::Sync)
    } else if name == "Send"@ {
        Some(Capability::Send)
    } else {
        None
    }
}

impl Capability {
    /// The capability that `name` names: `Sync` and `Send` are recognised,
    /// nothing else is.
    pub fn from_name(name: &str) -> (found: Option<Capability>)
        ensures
            found == capability_named(name@),
    {
        let name = String::from_str(name);
        if text_is(&name, "Sync") {
            Some(Capability::Sync)
        } else if text_is(&name, "Send") {
            Some(Capability::Send)
        } else {
            None
        }
    }

    /// The name of this capability in contracts.
    pub open spec fn spec_name(self) -> Seq<char> {
        match self {
            Capability::Sync => "Sync"@,
            Capability::Send => "Send"@,
        }
    }

    /// The name of this capability: the name of the marker trait.
    pub fn name(&self) -> (out: &'static str)
        ensures
            out@ == self.spec_name(),
    {
        match self {
            Capability::Sync => "Sync",
            Capability::Send => "Send",
        }
    }

    /// Whether this capability is among `list`.
    pub fn is_in(&self, list: &Vec<Capability>) -> (yes: bool)
        ensures
            yes == list@.contains(*self),
    {
        let mut i: usize = 0;
        while i < list.len()
            invariant
                i <= list.len(),
                forall|k: int| 0 <= k < i ==> list@[k] != *self,
            decreases list.len() - i,
        {
            if list[i] == *self {
                return true;
            }
            i = i + 1;
        }
        false
    }
}

/// Whether `name` is a word that cannot name an item.
pub fn is_reserved(name: &String) -> (yes: bool)
    ensures
        yes == reserved(name@),
{
    text_is(name, "_") || text_is(name, "abstract") || text_is(name, "as") || text_is(
        name,
        "become",
    ) || text_is(name, "box") || text_is(name, "break") || text_is(name, "const") || text_is(
        name,
        "continue",
    ) || text_is(name, "crate") || text_is(name, "do") || text_is(name, "else") || text_is(
        name,
        "enum",
    ) || text_is(name, "extern") || text_is(name, "false") || text_is(name, "final") || text_is(
        name,
        "fn",
    ) || text_is(name, "for") || text_is(name, "if") || text_is(name, "impl") || text_is(
        name,
        "in",
    ) || text_is(name, "let") || text_is(name, "loop") || text_is(name, "macro") || text_is(
        name,
        "match",
    ) || text_is(name, "mod") || text_is(name, "move") || text_is(name, "mut") || text_is(
        name,
        "override",
    ) || text_is(name, "priv") || text_is(name, "pub") || text_is(name, "ref") || text_is(
        name,
        "return",
    ) || text_is(name, "Self") || text_is(name, "self") || text_is(name, "static") || text_is(
        name,
        "struct",
    ) || text_is(name, "super") || text_is(name, "trait") || text_is(name, "true") || text_is(
        name,
        "type",
    ) || text_is(name, "typeof") || text_is(name, "unsafe") || text_is(name, "unsized")
        || text_is(name, "use") || text_is(name, "virtual") || text_is(name, "where") || text_is(
        name,
        "while",
    ) || text_is(name, "yield")
}

/// Whether `token` can be a segment of a module path.
pub fn is_segment(token: &Token) -> (yes: bool)
    ensures
        yes == segment(token@),
{
    match token {
        Token::Ident(name) => !is_reserved(name) || text_is(name, "super") || text_is(
            name,
            "self",
        ) || text_is(name, "Self") || text_is(name, "crate"),
        _ => false,
    }
}

/// Whether `::` stands at index `pos`.
pub fn colons(tokens: &Vec<Token>, pos: usize) -> (yes: bool)
    ensures
        yes == colons_at(views(tokens@), pos as int),
{
    pos < tokens.len() && tokens.len() - pos > 1 && tokens[pos].is_joint(":") && tokens[pos
        + 1].is_punct(":")
}

/// Whether a module path stands at index `pos`, with or without `::` in
/// front; with `whole`, whether it also runs to the last token.
pub fn simple_path(tokens: &Vec<Token>, pos: usize, whole: bool) -> (yes: bool)
    ensures
        yes == module_path_at(views(tokens@), pos as int, whole),
{
    let n = tokens.len();
    let ghost all = views(tokens@);
    let mut at: usize = if colons(tokens, pos) {
        pos + 2
    } else {
        pos
    };
    loop
        invariant
            n == tokens.len(),
            all == views(tokens@),
            module_path_at(all, pos as int, whole) == path_at(all, at as int, whole),
        decreases n - at,
    {
        if at >= n || !is_segment(&tokens[at]) {
            return false;
        }
        if !colons(tokens, at + 1) {
            return !whole || at + 1 == n;
        }
        at = at + 3;
    }
}

/// Whether `tokens` are a visibility: nothing, `pub`, `crate`, or `pub` and
/// a restriction in parentheses.
pub fn visibility_ok(tokens: &Vec<Token>) -> (yes: bool)
    ensures
        yes == is_visibility(views(tokens@)),
{
    let n = tokens.len();
    if n == 0 {
        return true;
    }
    if n == 1 {
        return tokens[0].is_word("pub") || tokens[0].is_word("crate");
    }
    if n < 4 || !tokens[0].is_word("pub") || !tokens[1].is_open(Delim::Paren) {
        return false;
    }
    if find_close(tokens, 2) != n - 1 || !tokens[n - 1].is_close(Delim::Paren) {
        return false;
    }
    let inner = slice(tokens, 2, n - 1);
    if inner.len() == 1 {
        return inner[0].is_word("crate") || inner[0].is_word("self") || inner[0].is_word(
            "super",
        );
    }
    inner[0].is_word("in") && simple_path(&inner, 1, true)
}

/// Reads the attributes from index `pos`.
pub fn parse_attrs(tokens: &Vec<Token>, pos: usize) -> (found: Option<(Vec<String>, usize)>)
    ensures
        match found {
            Some((attrs, next)) => attrs_at(views(tokens@), pos as int, Seq::empty()) == Some(
                (texts(attrs@), next as int),
            ) && pos <= next && (pos <= tokens.len() ==> next <= tokens.len()),
            None => attrs_at(views(tokens@), pos as int, Seq::empty()) is None,
        },
{
    let n = tokens.len();
    let ghost all = views(tokens@);
    let mut attrs: Vec<String> = Vec::new();
    let mut at: usize = pos;
    proof {
        assert(texts(attrs@) =~= Seq::<Seq<char>>::empty());
    }
    while at < n && tokens[at].is_punct("#")
        invariant
            n == tokens.len(),
            all == views(tokens@),
            pos <= at,
            pos <= n ==> at <= n,
            attrs_at(all, pos as int, Seq::empty()) == attrs_at(all, at as int, texts(attrs@)),
        decreases n - at,
    {
        if n - at < 2 || !tokens[at + 1].is_open(Delim::Bracket) {
            return None;
        }
        let end = find_close(tokens, at + 2);
        if end >= n || !tokens[end].is_close(Delim::Bracket) {
            return None;
        }
        let content = slice(tokens, at + 2, end);
        if !simple_path(&content, 0, false) {
            return None;
        }
        let text = render(tokens, at, end + 1);
        let ghost before = texts(attrs@);
        attrs.push(text);
        proof {
            assert(texts(attrs@) =~= before.push(text@));
        }
        at = end + 1;
    }
    Some((attrs, at))
}

/// Reads the capability at index `pos`: the identifier `Sync` or `Send`.
pub fn parse_oibit(tokens: &Vec<Token>, pos: usize) -> (found: Option<Capability>)
    ensures
        found == (if pos < tokens.len() {
            capability_of(tokens@[pos as int]@)
        } else {
            None
        }),
{
    if pos >= tokens.len() {
        return None;
    }
    match &tokens[pos] {
        Token::Ident(name) => Capability::from_name(name.as_str()),
        _ => None,
    }
}

/// Reads what stands between the name and the group in braces: nothing, or
/// `:` and capabilities separated by `+`, each of them once.
pub fn parse_oibits(tokens: &Vec<Token>, pos: usize) -> (found: Option<(Vec<Capability>, usize)>)
    ensures
        match found {
            Some((oibits, next)) => oibits_at(views(tokens@), pos as int) == Some(
                (oibits@, next as int),
            ),
            None => oibits_at(views(tokens@), pos as int) is None,
        },
{
    let n = tokens.len();
    let ghost all = views(tokens@);
    let mut oibits: Vec<Capability> = Vec::new();
    if pos >= n || !tokens[pos].is_punct(":") {
        return Some((oibits, pos));
    }
    let mut at: usize = pos + 1;
    proof {
        assert(oibits@ =~= Seq::<Capability>::empty());
    }
    loop
        invariant
            n == tokens.len(),
            all == views(tokens@),
            pos < at <= n,
            is_punct(all[pos as int], ":"@),
            capabilities_at(all, pos + 1, Seq::empty()) == capabilities_at(
                all,
                at as int,
                oibits@,
            ),
        decreases n - at,
    {
        let capability = match parse_oibit(tokens, at) {
            Some(capability) => capability,
            None => {
                return None;
            },
        };
        if capability.is_in(&oibits) {
            return None;
        }
        let braces_next = n - at > 1 && tokens[at + 1].is_open(Delim::Brace);
        let plus_next = n - at > 1 && tokens[at + 1].is_punct("+");
        if !braces_next && !plus_next {
            return None;
        }
        oibits.push(capability);
        if braces_next {
            return Some((oibits, at + 1));
        }
        if n - at > 2 && tokens[at + 2].is_open(Delim::Brace) {
            return Some((oibits, at + 2));
        }
        at = at + 2;
    }
}

/// Reads the line `intro key = path;` at index `pos`.
fn parse_assignment(tokens: &Vec<Token>, pos: usize, intro: &str, key: &str) -> (found: Option<
    (String, usize),
>)
    ensures
        match found {
            Some((path, next)) => assignment_at(views(tokens@), pos as int, intro@, key@) == Some(
                (path@, next as int),
            ),
            None => assignment_at(views(tokens@), pos as int, intro@, key@) is None,
        },
{
    let n = tokens.len();
    if pos > n || n - pos < 3 {
        return None;
    }
    if !tokens[pos].is_word(intro) || !tokens[pos + 1].is_word(key) || !tokens[pos + 2].is_punct(
        "=",
    ) {
        return None;
    }
    let end = find(tokens, pos + 3, true, ";");
    if end >= n {
        return None;
    }
    Some((render(tokens, pos + 3, end), end + 1))
}

/// Reads the line `type CType = path;` at index `pos`: the text of the
/// path of the foreign type, and the index after the line.
pub fn parse_ctype(tokens: &Vec<Token>, pos: usize) -> (found: Option<(String, usize)>)
    ensures
        match found {
            Some((path, next)) => ctype_at(views(tokens@), pos as int) == Some(
                (path@, next as int),
            ),
            None => ctype_at(views(tokens@), pos as int) is None,
        },
{
    parse_assignment(tokens, pos, "type", "CType")
}

/// Reads the line `fn key = path;` at index `pos`: the text of the path of
/// the function, and the index after the line.
pub fn parse_fn(tokens: &Vec<Token>, pos: usize, key: &str) -> (found: Option<(String, usize)>)
    ensures
        match found {
            Some((path, next)) => fn_at(views(tokens@), pos as int, key@) == Some(
                (path@, next as int),
            ),
            None => fn_at(views(tokens@), pos as int, key@) is None,
        },
{
    parse_assignment(tokens, pos, "fn", key)
}

/// Reads what the group in braces declares, from the tokens between the
/// braces: the foreign type, the destructor and the duplicator.
///
/// The destructor is required. The duplicator is optional; where anything
/// follows the destructor, it must be the duplicator and nothing else.
pub fn parse_body(tokens: &Vec<Token>) -> (found: Result<
    (String, String, Option<String>),
    ConfigurationError,
>)
    ensures
        match found {
            Ok((ctype, drop, clone)) => body_of(views(tokens@)) == Ok::<
                (Seq<char>, Seq<char>, Option<Seq<char>>),
                ConfigurationError,
            >((ctype@, drop@, text_option(clone))),
            Err(e) => body_of(views(tokens@)) == Err::<
                (Seq<char>, Seq<char>, Option<Seq<char>>),
                ConfigurationError,
            >(e),
        },
{
    let (ctype, after_ctype) = match parse_ctype(tokens, 0) {
        Some(found) => found,
        None => {
            return Err(ConfigurationError::CType);
        },
    };
    let (drop, after_drop) = match parse_fn(tokens, after_ctype, "drop") {
        Some(found) => found,
        None => {
            return Err(ConfigurationError::Destructor);
        },
    };
    if after_drop == tokens.len() {
        return Ok((ctype, drop, None));
    }
    match parse_fn(tokens, after_drop, "clone") {
        Some((clone, after_clone)) => {
            if after_clone == tokens.len() {
                Ok((ctype, drop, Some(clone)))
            } else {
                Err(ConfigurationError::Duplicator)
            }
        },
        None => Err(ConfigurationError::Duplicator),
    }
}

impl ForeignType {
    /// Reads the description that begins at index `pos`, and gives it with
    /// the index after it. Its paths are read as they stand: whether they
    /// are paths is not asked.
    pub fn scan(tokens: &Vec<Token>, pos: usize) -> (found: Result<
        (ForeignType, usize),
        ConfigurationError,
    >)
        ensures
            match found {
                Ok((described, next)) => type_at(views(tokens@), pos as int) == Ok::<
                    (ForeignTypeSpec, int),
                    ConfigurationError,
                >((described@, next as int)) && pos < next <= tokens.len() && !reserved(
                    described@.name,
                ) && described@.oibits.no_duplicates(),
                Err(e) => type_at(views(tokens@), pos as int) == Err::<
                    (ForeignTypeSpec, int),
                    ConfigurationError,
                >(e),
            },
    {
        proof {
            if type_at(views(tokens@), pos as int) is Ok {
                type_at_advances(views(tokens@), pos as int);
            }
        }
        let n = tokens.len();
        let (attrs, after_attrs) = match parse_attrs(tokens, pos) {
            Some(found) => found,
            None => {
                return Err(ConfigurationError::Attribute);
            },
        };
        if after_attrs > n {
            return Err(ConfigurationError::Visibility);
        }
        let keyword = find(tokens, after_attrs, false, "type");
        if keyword >= n {
            return Err(ConfigurationError::Visibility);
        }
        let before = slice(tokens, after_attrs, keyword);
        if !visibility_ok(&before) {
            return Err(ConfigurationError::Visibility);
        }
        let visibility = render(tokens, after_attrs, keyword);
        if n - keyword < 2 {
            return Err(ConfigurationError::Name);
        }
        let name = match &tokens[keyword + 1] {
            Token::Ident(name) => {
                if is_reserved(name) {
                    return Err(ConfigurationError::Name);
                }
                name.clone()
            },
            _ => {
                return Err(ConfigurationError::Name);
            },
        };
        let (oibits, group) = match parse_oibits(tokens, keyword + 2) {
            Some(found) => found,
            None => {
                return Err(ConfigurationError::Capability);
            },
        };
        if group >= n || !tokens[group].is_open(Delim::Brace) {
            return Err(ConfigurationError::Body);
        }
        let end = find_close(tokens, group + 1);
        if end >= n || !tokens[end].is_close(Delim::Brace) {
            return Err(ConfigurationError::Body);
        }
        let inner = slice(tokens, group + 1, end);
        match parse_body(&inner) {
            Err(e) => Err(e),
            Ok((ctype, drop, clone)) => Ok(
                (ForeignType { attrs, visibility, name, oibits, ctype, drop, clone }, end + 1),
            ),
        }
    }

    /// Says what is wrong with a description once it is known which of its
    /// paths were taken for paths: the error of the first that was not, in
    /// the order foreign type, destructor, duplicator. The answer for the
    /// duplicator counts only where one is declared.
    pub fn settle(&self, ctype_ok: bool, drop_ok: bool, clone_ok: bool) -> (checked: Result<
        (),
        ConfigurationError,
    >)
        ensures
            match checked {
                Ok(_) => refusal(self@, ctype_ok, drop_ok, clone_ok) is None,
                Err(e) => refusal(self@, ctype_ok, drop_ok, clone_ok) == Some(e),
            },
    {
        if !ctype_ok {
            Err(ConfigurationError::CType)
        } else if !drop_ok {
            Err(ConfigurationError::Destructor)
        } else if self.clone.is_some() && !clone_ok {
            Err(ConfigurationError::Duplicator)
        } else {
            Ok(())
        }
    }

    /// Asks of each path of the description whether it is a path, and says
    /// what follows. A path that is not askable is never taken for
    /// one.
    pub fn check_paths(&self) -> (checked: Result<(), ConfigurationError>)
        ensures
            exists|a: bool, b: bool, c: bool|
                match checked {
                    Ok(_) => #[trigger] refusal(self@, a, b, c) is None,
                    Err(e) => refusal(self@, a, b, c) == Some(e),
                },
            checked is Ok ==> askable(self@.ctype) && askable(self@.drop) && (
            self@.clone matches Some(path) ==> askable(path)),
            !askable(self@.ctype) ==> checked == Err::<(), ConfigurationError>(
                ConfigurationError::CType,
            ),
    {
        let ctype_ok = check_expr_path(self.ctype.as_str());
        let drop_ok = check_expr_path(self.drop.as_str());
        let clone_ok = match &self.clone {
            Some(path) => check_expr_path(path.as_str()),
            None => true,
        };
        let checked = self.settle(ctype_ok, drop_ok, clone_ok);
        proof {
            assert(match checked {
                Ok(_) => refusal(self@, ctype_ok, drop_ok, clone_ok) is None,
                Err(e) => refusal(self@, ctype_ok, drop_ok, clone_ok) == Some(e),
            });
        }
        checked
    }

    /// Reads the description that begins at index `pos`, asks whether its
    /// paths are paths, and gives it with the index after it.
    ///
    /// Where the description cannot be read, the error is that of
    /// [`type_at`]. Where it can, the result is the description as read or
    /// the error of its first path that was not taken for one.
    pub fn parse(tokens: &Vec<Token>, pos: usize) -> (found: Result<
        (ForeignType, usize),
        ConfigurationError,
    >)
        ensures
            exists|a: bool, b: bool, c: bool|
                match found {
                    Ok((described, next)) => #[trigger] admitted(
                        type_at(views(tokens@), pos as int),
                        a,
                        b,
                        c,
                    ) == Ok::<(ForeignTypeSpec, int), ConfigurationError>(
                        (described@, next as int),
                    ),
                    Err(e) => admitted(type_at(views(tokens@), pos as int), a, b, c) == Err::<
                        (ForeignTypeSpec, int),
                        ConfigurationError,
                    >(e),
                },
            found matches Ok((described, next)) ==> described@.valid() && pos < next
                <= tokens.len(),
            type_at(views(tokens@), pos as int) matches Err(e) ==> found == Err::<
                (ForeignType, usize),
                ConfigurationError,
            >(e),
    {
        let ghost read = type_at(views(tokens@), pos as int);
        match ForeignType::scan(tokens, pos) {
            Err(e) => {
                proof {
                    assert(admitted(read, true, true, true) == Err::<
                        (ForeignTypeSpec, int),
                        ConfigurationError,
                    >(e));
                }
                Err(e)
            },
            Ok((described, next)) => {
                let checked = described.check_paths();
                proof {
                    let (a, b, c) = choose|a: bool, b: bool, c: bool|
                        match checked {
                            Ok(_) => #[trigger] refusal(described@, a, b, c) is None,
                            Err(e) => refusal(described@, a, b, c) == Some(e),
                        };
                    match checked {
                        Ok(_) => {
                            assert(admitted(read, a, b, c) == Ok::<
                                (ForeignTypeSpec, int),
                                ConfigurationError,
                            >((described@, next as int)));
                        },
                        Err(e) => {
                            assert(admitted(read, a, b, c) == Err::<
                                (ForeignTypeSpec, int),
                                ConfigurationError,
                            >(e));
                        },
                    }
                }
                match checked {
                    Err(e) => Err(e),
                    Ok(_) => Ok((described, next)),
                }
            },
        }
    }
}

/// Reads the descriptions that `tokens` hold, one after the other, as they
/// stand: whether their paths are paths is not asked.
pub fn parse_types(tokens: &Vec<Token>) -> (found: Result<Vec<ForeignType>, ConfigurationError>)
    ensures
        match found {
            Ok(types) => types_of(views(tokens@)) == Ok::<
                Seq<ForeignTypeSpec>,
                ConfigurationError,
            >(type_views(types@)),
            Err(e) => types_of(views(tokens@)) == Err::<
                Seq<ForeignTypeSpec>,
                ConfigurationError,
            >(e),
        },
        found matches Ok(types) ==> forall|i: int|
            0 <= i < types@.len() ==> !reserved((#[trigger] types@[i])@.name)
                && types@[i]@.oibits.no_duplicates(),
{
    let n = tokens.len();
    let ghost all = views(tokens@);
    let mut types: Vec<ForeignType> = Vec::new();
    let mut pos: usize = 0;
    proof {
        assert(type_views(types@) =~= Seq::<ForeignTypeSpec>::empty());
    }
    while pos < n
        invariant
            n == tokens.len(),
            all == views(tokens@),
            pos <= n,
            types_of(all) == types_from(all, pos as int, type_views(types@)),
            forall|i: int|
                0 <= i < types@.len() ==> !reserved((#[trigger] types@[i])@.name)
                    && types@[i]@.oibits.no_duplicates(),
        decreases n - pos,
    {
        match ForeignType::scan(tokens, pos) {
            Err(e) => {
                return Err(e);
            },
            Ok((described, next)) => {
                let ghost before = type_views(types@);
                types.push(described);
                proof {
                    assert(type_views(types@) =~= before.push(described@));
                }
                pos = next;
            },
        }
    }
    Ok(types)
}

impl Input {
    /// Asks of the path to the library and of every path of every
    /// description whether it is a path. The error is `CratePath`, or what
    /// is wrong with the first description that has a path which was not
    /// taken for one. A path that is not askable is never taken for one.
    pub fn check_paths(&self) -> (checked: Result<(), ConfigurationError>)
        ensures
            checked is Ok ==> askable(self@.crate_) && forall|i: int|
                0 <= i < self@.types.len() ==> askable((#[trigger] self@.types[i]).ctype)
                    && askable(self@.types[i].drop) && (self@.types[i].clone matches Some(path)
                    ==> askable(path)),
            checked matches Err(e) ==> e == ConfigurationError::CratePath || refused(
                self@.types,
                e,
            ),
            !askable(self@.crate_) ==> checked == Err::<(), ConfigurationError>(
                ConfigurationError::CratePath,
            ),
    {
        if !check_path(self.crate_.as_str()) {
            return Err(ConfigurationError::CratePath);
        }
        let mut i: usize = 0;
        while i < self.types.len()
            invariant
                i <= self.types.len(),
                askable(self@.crate_),
                forall|k: int|
                    0 <= k < i ==> askable((#[trigger] self@.types[k]).ctype) && askable(
                        self@.types[k].drop,
                    ) && (self@.types[k].clone matches Some(path) ==> askable(path)),
            decreases self.types.len() - i,
        {
            assert(self@.types[i as int] == self.types@[i as int]@);
            match self.types[i].check_paths() {
                Err(e) => {
                    return Err(e);
                },
                Ok(_) => {},
            }
            i = i + 1;
        }
        Ok(())
    }

    /// Reads the input of one expansion: `crate_`, the path to this
    /// library, and `tokens`, the descriptions. The descriptions are read
    /// first; then `crate_` and every path of a description is asked.
    ///
    /// Where the descriptions cannot be read, the error is that of
    /// [`types_of`]. Where they can, the result is what was read, or
    /// `CratePath`, or what is wrong with a description that has a path
    /// which was not taken for one.
    pub fn parse(crate_: &str, tokens: &Vec<Token>) -> (found: Result<Input, ConfigurationError>)
        ensures
            types_of(views(tokens@)) matches Err(e) ==> found == Err::<Input, ConfigurationError>(
                e,
            ),
            types_of(views(tokens@)) matches Ok(types) ==> match found {
                Ok(input) => input@ == (InputSpec { crate_: crate_@, types }) && input@.valid(),
                Err(e) => e == ConfigurationError::CratePath || refused(types, e),
            },
            types_of(views(tokens@)) is Ok && !askable(crate_@) ==> found == Err::<
                Input,
                ConfigurationError,
            >(ConfigurationError::CratePath),
    {
        let types = match parse_types(tokens) {
            Ok(types) => types,
            Err(e) => {
                return Err(e);
            },
        };
        let input = Input { crate_: String::from_str(crate_), types };
        match input.check_paths() {
            Err(e) => Err(e),
            Ok(_) => {
                proof {
                    assert forall|i: int| 0 <= i < input@.types.len() implies (
                    #[trigger] input@.types[i]).valid() by {
                        assert(input@.types[i] == input.types@[i]@);
                    }
                }
                Ok(input)
            },
        }
    }
}

} // verus!
