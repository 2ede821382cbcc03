//! The grammar of a description, over tokens.
//!
//! Each function says what stands at an index of a sequence of tokens: a
//! part of a description and the index after it, or nothing. All of it is
//! decided here but one thing: whether the tokens of a path are a path is
//! asked later, and [`refusal`] says what follows from the answers.

use crate::parse::{capability_named, Capability, ConfigurationError, ForeignTypeSpec};
use crate::token::{
    close_at_depth_bounds, close_of, first_at_depth_bounds, first_match, is_close, is_joint,
    is_open, is_punct, is_word, rendered, Delim, TokenSpec,
};
use vstd::prelude::*;

verus! {

/// Whether `name` is a word that cannot name an item: a keyword of Rust,
/// reserved or in use, or `_`.
pub open spec fn reserved(name: Seq<char>) -> bool {
    ||| name == "_"@
    ||| name == "abstract"@
    ||| name == "as"@
    ||| name == "become"@
    ||| name == "box"@
    ||| name == "break"@
    ||| name == "const"@
    ||| name == "continue"@
    ||| name == "crate"@
    ||| name == "do"@
    ||| name == "else"@
    ||| name == "enum"@
    ||| name == "extern"@
    ||| name == "false"@
    ||| name == "final"@
    ||| name == "fn"@
    ||| name == "for"@
    ||| name == "if"@
    ||| name == "impl"@
    ||| name == "in"@
    ||| name == "let"@
    ||| name == "loop"@
    ||| name == "macro"@
    ||| name == "match"@
    ||| name == "mod"@
    ||| name == "move"@
    ||| name == "mut"@
    ||| name == "override"@
    ||| name == "priv"@
    ||| name == "pub"@
    ||| name == "ref"@
    ||| name == "return"@
    ||| name == "Self"@
    ||| name == "self"@
    ||| name == "static"@
    ||| name == "struct"@
    ||| name == "super"@
    ||| name == "trait"@
    ||| name == "true"@
    ||| name == "type"@
    ||| name == "typeof"@
    ||| name == "unsafe"@
    ||| name == "unsized"@
    ||| name == "use"@
    ||| name == "virtual"@
    ||| name == "where"@
    ||| name == "while"@
    ||| name == "yield"@
}

/// Whether `token` can be a segment of a module path: an identifier that
/// is not reserved, or one of `super`, `self`, `Self` and `crate`.
pub open spec fn segment(token: TokenSpec) -> bool {
    token matches TokenSpec::Ident(name) && (!reserved(name) || name == "super"@ || name
        == "self"@ || name == "Self"@ || name == "crate"@)
}

/// Whether `::` stands at index `pos`: two colons, the first joined to the
/// second.
pub open spec fn colons_at(tokens: Seq<TokenSpec>, pos: int) -> bool {
    0 <= pos && pos + 1 < tokens.len() && is_joint(tokens[pos], ":"@) && is_punct(
        tokens[pos + 1],
        ":"@,
    )
}

/// Whether segments separated by `::` stand from index `pos` on, the last
/// of them not followed by `::`. With `whole`, the last segment is also
/// the last token.
pub open spec fn path_at(tokens: Seq<TokenSpec>, pos: int, whole: bool) -> bool
    decreases tokens.len() - pos,
{
    if pos < 0 || pos >= tokens.len() || !segment(tokens[pos]) {
        false
    } else if colons_at(tokens, pos + 1) {
        path_at(tokens, pos + 3, whole)
    } else {
        !whole || pos + 1 == tokens.len()
    }
}

/// Whether a module path stands at index `pos`, with or without `::` in
/// front: segments separated by `::`. With `whole` it runs to the last
/// token.
pub open spec fn module_path_at(tokens: Seq<TokenSpec>, pos: int, whole: bool) -> bool {
    if colons_at(tokens, pos) {
        path_at(tokens, pos + 2, whole)
    } else {
        path_at(tokens, pos, whole)
    }
}

/// Whether `tokens` stand between the parentheses of a restricted
/// visibility: one of `crate`, `self` and `super`, or `in` and a module
/// path.
pub open spec fn is_restriction(tokens: Seq<TokenSpec>) -> bool {
    ||| tokens.len() == 1 && (is_word(tokens[0], "crate"@) || is_word(tokens[0], "self"@)
        || is_word(tokens[0], "super"@))
    ||| tokens.len() >= 2 && is_word(tokens[0], "in"@) && module_path_at(tokens, 1, true)
}

/// Whether `tokens` are a visibility: nothing, `pub`, `crate`, or `pub` and
/// a restriction in parentheses.
pub open spec fn is_visibility(tokens: Seq<TokenSpec>) -> bool {
    ||| tokens.len() == 0
    ||| tokens.len() == 1 && (is_word(tokens[0], "pub"@) || is_word(tokens[0], "crate"@))
    ||| tokens.len() >= 4 && is_word(tokens[0], "pub"@) && is_open(tokens[1], Delim::Paren)
        && close_of(tokens, 2) == tokens.len() - 1 && is_close(
        tokens[tokens.len() - 1],
        Delim::Paren,
    ) && is_restriction(tokens.subrange(2, tokens.len() - 1))
}

/// The attributes from index `pos`, after those in `seen`: as long as a `#`
/// stands there, a group in square brackets follows it that begins with a
/// module path, and the two are an attribute. The result holds the text of
/// each attribute and the index after the last.
pub open spec fn attrs_at(tokens: Seq<TokenSpec>, pos: int, seen: Seq<Seq<char>>) -> Option<
    (Seq<Seq<char>>, int),
>
    decreases tokens.len() - pos,
{
    if 0 <= pos < tokens.len() && is_punct(tokens[pos], "#"@) {
        let end = close_of(tokens, pos + 2);
        if pos + 1 < tokens.len() && is_open(tokens[pos + 1], Delim::Bracket) && pos + 2 <= end
            < tokens.len() && is_close(tokens[end], Delim::Bracket) && module_path_at(
            tokens.subrange(pos + 2, end),
            0,
            false,
        ) {
            attrs_at(tokens, end + 1, seen.push(rendered(tokens.subrange(pos, end + 1))))
        } else {
            None
        }
    } else {
        Some((seen, pos))
    }
}

/// The name at index `pos`: an identifier that is not reserved.
pub open spec fn name_at(tokens: Seq<TokenSpec>, pos: int) -> Option<Seq<char>> {
    if 0 <= pos < tokens.len() {
        match tokens[pos] {
            TokenSpec::Ident(name) => if reserved(name) {
                None
            } else {
                Some(name)
            },
            _ => None,
        }
    } else {
        None
    }
}

/// The capability that `token` names.
pub open spec fn capability_of(token: TokenSpec) -> Option<Capability> {
    match token {
        TokenSpec::Ident(name) => capability_named(name),
        _ => None,
    }
}

/// The capabilities from index `pos`, where the next of them stands, after
/// those in `seen`, up to the group in braces: capabilities separated by
/// `+`, with or without a `+` after the last, and none of them twice. The
/// result holds the index of the group.
pub open spec fn capabilities_at(tokens: Seq<TokenSpec>, pos: int, seen: Seq<Capability>) -> Option<
    (Seq<Capability>, int),
>
    decreases tokens.len() - pos,
{
    if pos < 0 || pos >= tokens.len() {
        None
    } else {
        match capability_of(tokens[pos]) {
            None => None,
            Some(next) => {
                if seen.contains(next) {
                    None
                } else if pos + 1 < tokens.len() && is_open(tokens[pos + 1], Delim::Brace) {
                    Some((seen.push(next), pos + 1))
                } else if pos + 1 < tokens.len() && is_punct(tokens[pos + 1], "+"@) {
                    if pos + 2 < tokens.len() && is_open(tokens[pos + 2], Delim::Brace) {
                        Some((seen.push(next), pos + 2))
                    } else {
                        capabilities_at(tokens, pos + 2, seen.push(next))
                    }
                } else {
                    None
                }
            },
        }
    }
}

/// What stands between the name and the group in braces: nothing, or `:`
/// and a list of capabilities. The result holds the index after it.
pub open spec fn oibits_at(tokens: Seq<TokenSpec>, pos: int) -> Option<(Seq<Capability>, int)> {
    if 0 <= pos < tokens.len() && is_punct(tokens[pos], ":"@) {
        capabilities_at(tokens, pos + 1, Seq::empty())
    } else {
        Some((Seq::empty(), pos))
    }
}

/// The line `intro key = path;` at index `pos`: the text of the path, and
/// the index after the line. The path is every token up to the first `;`
/// outside a group.
pub open spec fn assignment_at(tokens: Seq<TokenSpec>, pos: int, intro: Seq<char>, key: Seq<char>)
    -> Option<(Seq<char>, int)> {
    let end = first_match(tokens, pos + 3, true, ";"@);
    if 0 <= pos && pos + 3 <= tokens.len() && is_word(tokens[pos], intro) && is_word(
        tokens[pos + 1],
        key,
    ) && is_punct(tokens[pos + 2], "="@) && end < tokens.len() {
        Some((rendered(tokens.subrange(pos + 3, end)), end + 1))
    } else {
        None
    }
}

/// The line `type CType = path;` at index `pos`.
pub open spec fn ctype_at(tokens: Seq<TokenSpec>, pos: int) -> Option<(Seq<char>, int)> {
    assignment_at(tokens, pos, "type"@, "CType"@)
}

/// The line `fn key = path;` at index `pos`.
pub open spec fn fn_at(tokens: Seq<TokenSpec>, pos: int, key: Seq<char>) -> Option<
    (Seq<char>, int),
> {
    assignment_at(tokens, pos, "fn"@, key)
}

/// What the tokens between the braces declare: the foreign type, the
/// destructor and, where more follows, the duplicator and nothing after
/// it.
pub open spec fn body_of(tokens: Seq<TokenSpec>) -> Result<
    (Seq<char>, Seq<char>, Option<Seq<char>>),
    ConfigurationError,
> {
    match ctype_at(tokens, 0) {
        None => Err(ConfigurationError::CType),
        Some((ctype, after_ctype)) => match fn_at(tokens, after_ctype, "drop"@) {
            None => Err(ConfigurationError::Destructor),
            Some((drop, after_drop)) => {
                if after_drop == tokens.len() {
                    Ok((ctype, drop, None))
                } else {
                    match fn_at(tokens, after_drop, "clone"@) {
                        None => Err(ConfigurationError::Duplicator),
                        Some((clone, after_clone)) => {
                            if after_clone == tokens.len() {
                                Ok((ctype, drop, Some(clone)))
                            } else {
                                Err(ConfigurationError::Duplicator)
                            }
                        },
                    }
                }
            },
        },
    }
}

/// The description that begins at index `pos`, and the index after it.
///
/// The parts are read in order, and the first that fails gives the error:
/// the attributes, the visibility (all tokens up to the keyword `type`),
/// the name, the capabilities, the group in braces and what it declares.
pub open spec fn type_at(tokens: Seq<TokenSpec>, pos: int) -> Result<
    (ForeignTypeSpec, int),
    ConfigurationError,
> {
    match attrs_at(tokens, pos, Seq::empty()) {
        None => Err(ConfigurationError::Attribute),
        Some((attrs, after_attrs)) => {
            let keyword = first_match(tokens, after_attrs, false, "type"@);
            let visibility = tokens.subrange(after_attrs, keyword);
            if keyword >= tokens.len() || !is_visibility(visibility) {
                Err(ConfigurationError::Visibility)
            } else {
                match name_at(tokens, keyword + 1) {
                    None => Err(ConfigurationError::Name),
                    Some(name) => match oibits_at(tokens, keyword + 2) {
                        None => Err(ConfigurationError::Capability),
                        Some((oibits, group)) => {
                            let end = close_of(tokens, group + 1);
                            if 0 <= group < tokens.len() && is_open(tokens[group], Delim::Brace)
                                && group < end < tokens.len() && is_close(
                                tokens[end],
                                Delim::Brace,
                            ) {
                                match body_of(tokens.subrange(group + 1, end)) {
                                    Err(e) => Err(e),
                                    Ok((ctype, drop, clone)) => Ok(
                                        (
                                            ForeignTypeSpec {
                                                attrs,
                                                visibility: rendered(visibility),
                                                name,
                                                oibits,
                                                ctype,
                                                drop,
                                                clone,
                                            },
                                            end + 1,
                                        ),
                                    ),
                                }
                            } else {
                                Err(ConfigurationError::Body)
                            }
                        },
                    },
                }
            }
        },
    }
}

/// What is wrong with a description once it is known which of its paths
/// were taken for paths: the first path, in the order of the description,
/// that was not.
pub open spec fn refusal(described: ForeignTypeSpec, ctype_ok: bool, drop_ok: bool, clone_ok: bool)
    -> Option<ConfigurationError> {
    if !ctype_ok {
        Some(ConfigurationError::CType)
    } else if !drop_ok {
        Some(ConfigurationError::Destructor)
    } else if described.clone is Some && !clone_ok {
        Some(ConfigurationError::Duplicator)
    } else {
        None
    }
}

/// A description as it was read, once it is known which of its paths were
/// taken for paths.
pub open spec fn admitted(
    read: Result<(ForeignTypeSpec, int), ConfigurationError>,
    ctype_ok: bool,
    drop_ok: bool,
    clone_ok: bool,
) -> Result<(ForeignTypeSpec, int), ConfigurationError> {
    match read {
        Err(e) => Err(e),
        Ok((described, next)) => match refusal(described, ctype_ok, drop_ok, clone_ok) {
            Some(e) => Err(e),
            None => Ok((described, next)),
        },
    }
}

/// Whether `error` is what is wrong with one of `types` for some answers
/// on its paths: one of them has a path to which the error belongs.
pub open spec fn refused(types: Seq<ForeignTypeSpec>, error: ConfigurationError) -> bool {
    exists|i: int, a: bool, b: bool, c: bool|
        0 <= i < types.len() && #[trigger] refusal(types[i], a, b, c) == Some(error)
}

/// Attributes that were read end at or after the index at which they
/// began, within the tokens.
pub proof fn attrs_at_advances(tokens: Seq<TokenSpec>, pos: int, seen: Seq<Seq<char>>)
    requires
        attrs_at(tokens, pos, seen) is Some,
    ensures
        pos <= attrs_at(tokens, pos, seen)->Some_0.1,
        0 <= pos <= tokens.len() ==> attrs_at(tokens, pos, seen)->Some_0.1 <= tokens.len(),
    decreases tokens.len() - pos,
{
    if 0 <= pos < tokens.len() && is_punct(tokens[pos], "#"@) {
        let end = close_of(tokens, pos + 2);
        attrs_at_advances(tokens, end + 1, seen.push(rendered(tokens.subrange(pos, end + 1))));
    }
}

/// Capabilities that were read end after the index at which they began, at
/// the opening brace, and none of them occurs twice.
pub proof fn capabilities_at_advances(tokens: Seq<TokenSpec>, pos: int, seen: Seq<Capability>)
    requires
        capabilities_at(tokens, pos, seen) is Some,
        seen.no_duplicates(),
    ensures
        pos < capabilities_at(tokens, pos, seen)->Some_0.1 < tokens.len(),
        is_open(tokens[capabilities_at(tokens, pos, seen)->Some_0.1], Delim::Brace),
        capabilities_at(tokens, pos, seen)->Some_0.0.no_duplicates(),
    decreases tokens.len() - pos,
{
    let next = capability_of(tokens[pos])->Some_0;
    let now = seen.push(next);
    assert(now.no_duplicates()) by {
        assert forall|i: int, j: int| 0 <= i < now.len() && 0 <= j < now.len() && i != j implies now[i]
            != now[j] by {
            if i < seen.len() && j < seen.len() {
            } else if i < seen.len() {
                assert(seen.contains(seen[i]));
            } else {
                assert(seen.contains(seen[j]));
            }
        }
    }
    if pos + 1 < tokens.len() && is_open(tokens[pos + 1], Delim::Brace) {
    } else if pos + 2 < tokens.len() && is_open(tokens[pos + 2], Delim::Brace) {
    } else {
        capabilities_at_advances(tokens, pos + 2, now);
    }
}

/// A description that was read ends after the index at which it began,
/// within the tokens; its name is not reserved, and none of its
/// capabilities occurs twice.
pub proof fn type_at_advances(tokens: Seq<TokenSpec>, pos: int)
    requires
        0 <= pos,
        type_at(tokens, pos) is Ok,
    ensures
        pos < type_at(tokens, pos)->Ok_0.1 <= tokens.len(),
        !reserved(type_at(tokens, pos)->Ok_0.0.name),
        type_at(tokens, pos)->Ok_0.0.oibits.no_duplicates(),
{
    attrs_at_advances(tokens, pos, Seq::empty());
    let after_attrs = attrs_at(tokens, pos, Seq::empty())->Some_0.1;
    if after_attrs <= tokens.len() {
        first_at_depth_bounds(tokens, after_attrs, 0, false, "type"@);
    }
    let keyword = first_match(tokens, after_attrs, false, "type"@);
    if 0 <= keyword + 2 < tokens.len() && is_punct(tokens[keyword + 2], ":"@) {
        capabilities_at_advances(tokens, keyword + 3, Seq::empty());
    }
}

/// The descriptions from index `pos` to the end of the tokens, after those
/// in `seen`.
pub open spec fn types_from(tokens: Seq<TokenSpec>, pos: int, seen: Seq<ForeignTypeSpec>) -> Result<
    Seq<ForeignTypeSpec>,
    ConfigurationError,
>
    decreases tokens.len() - pos,
    via types_from_decreases
{
    if pos < 0 || pos >= tokens.len() {
        Ok(seen)
    } else {
        match type_at(tokens, pos) {
            Err(e) => Err(e),
            Ok((described, next)) => types_from(tokens, next, seen.push(described)),
        }
    }
}

#[via_fn]
proof fn types_from_decreases(tokens: Seq<TokenSpec>, pos: int, seen: Seq<ForeignTypeSpec>) {
    if 0 <= pos < tokens.len() && type_at(tokens, pos) is Ok {
        type_at_advances(tokens, pos);
    }
}

/// The descriptions that `tokens` hold, one after the other.
pub open spec fn types_of(tokens: Seq<TokenSpec>) -> Result<
    Seq<ForeignTypeSpec>,
    ConfigurationError,
> {
    types_from(tokens, 0, Seq::empty())
}

} // verus!
