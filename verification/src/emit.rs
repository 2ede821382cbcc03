//! The source text of the two types that stand for one foreign type.
//!
//! For each description the library emits an owned type, which holds the
//! pointer and destroys the resource when it is dropped, and a borrowed type,
//! to which the owned type dereferences. Capabilities become marker impls on
//! both. The impls that duplicate are emitted only where the description
//! declares a duplicator.
//!
//! Every function states the text that it emits, character by character.

use crate::parse::{Capability, ForeignType, ForeignTypeSpec, Input, InputSpec};
use vstd::prelude::*;

verus! {

/// The name of the borrowed type: the name of the owned type and `Ref`.
pub open spec fn ref_name_of(name: Seq<char>) -> Seq<char> {
    name + "Ref"@
}

/// The name of the borrowed type.
pub fn ref_name(input: &ForeignType) -> (out: String)
    ensures
        out@ == ref_name_of(input.name@),
{
    let mut out = input.name.clone();
    out.append("Ref");
    out
}

/// The first `count` attributes, one to a line.
pub open spec fn attr_lines(attrs: Seq<Seq<char>>, count: int) -> Seq<char>
    decreases count,
{
    if count <= 0 {
        Seq::empty()
    } else {
        attr_lines(attrs, count - 1) + attrs[count - 1] + "\n"@
    }
}

/// Emits the attributes of the description, one to a line.
pub fn build_attrs(input: &ForeignType) -> (out: String)
    ensures
        out@ == attr_lines(input@.attrs, input@.attrs.len() as int),
{
    let mut out = String::new();
    let mut i: usize = 0;
    while i < input.attrs.len()
        invariant
            i <= input.attrs.len(),
            out@ == attr_lines(input@.attrs, i as int),
        decreases input.attrs.len() - i,
    {
        proof {
            assert(input@.attrs[i as int] == input.attrs@[i as int]@);
            assert(attr_lines(input@.attrs, i + 1) == attr_lines(input@.attrs, i as int)
                + input@.attrs[i as int] + "\n"@);
        }
        out.append(input.attrs[i].as_str());
        out.append("\n");
        i = i + 1;
    }
    out
}

/// The declarations of the two types: the owned type, which holds a non-null
/// pointer to the foreign type, under the attributes of the description; and
/// the borrowed type, which holds the library's opaque type.
pub open spec fn decls_text(crate_: Seq<char>, described: ForeignTypeSpec) -> Seq<char> {
    attr_lines(described.attrs, described.attrs.len() as int)
    + described.visibility
    + " struct "@
    + described.name
    + "("@
    + crate_
    + "::export::NonNull<"@
    + described.ctype
    + ">);\n#[doc = \"A borrowed reference to a [`"@
    + described.name
    + "`](struct."@
    + described.name
    + ".html).\"]\n"@
    + described.visibility
    + " struct "@
    + ref_name_of(described.name)
    + "("@
    + crate_
    + "::Opaque);\n"@
}

/// Emits the declarations of the owned and the borrowed type.
pub fn build_decls(crate_: &str, input: &ForeignType) -> (out: String)
    ensures
        out@ == decls_text(crate_@, input@),
{
    let borrowed = ref_name(input);
    let mut out = build_attrs(input);
    out.append(input.visibility.as_str());
    out.append(" struct ");
    out.append(input.name.as_str());
    out.append("(");
    out.append(crate_);
    out.append("::export::NonNull<");
    out.append(input.ctype.as_str());
    out.append(">);\n#[doc = \"A borrowed reference to a [`");
    out.append(input.name.as_str());
    out.append("`](struct.");
    out.append(input.name.as_str());
    out.append(".html).\"]\n");
    out.append(input.visibility.as_str());
    out.append(" struct ");
    out.append(borrowed.as_str());
    out.append("(");
    out.append(crate_);
    out.append("::Opaque);\n");
    out
}

/// The two impls that attach one capability, unchecked, to the owned and to
/// the borrowed type.
pub open spec fn oibit_text(crate_: Seq<char>, described: ForeignTypeSpec, capability: Capability) -> Seq<
    char,
> {
    "unsafe impl "@
    + crate_
    + "::export::"@
    + capability.spec_name()
    + " for "@
    + described.name
    + " {}\nunsafe impl "@
    + crate_
    + "::export::"@
    + capability.spec_name()
    + " for "@
    + ref_name_of(described.name)
    + " {}\n"@
}

/// Emits the marker impls of one capability, for the owned and for the
/// borrowed type.
pub fn build_oibit(crate_: &str, input: &ForeignType, capability: Capability) -> (out: String)
    ensures
        out@ == oibit_text(crate_@, input@, capability),
{
    let borrowed = ref_name(input);
    let mut out = String::from_str("unsafe impl ");
    out.append(crate_);
    out.append("::export::");
    out.append(capability.name());
    out.append(" for ");
    out.append(input.name.as_str());
    out.append(" {}\nunsafe impl ");
    out.append(crate_);
    out.append("::export::");
    out.append(capability.name());
    out.append(" for ");
    out.append(borrowed.as_str());
    out.append(" {}\n");
    out
}

/// The marker impls of the first `count` capabilities of the description.
pub open spec fn oibits_upto(crate_: Seq<char>, described: ForeignTypeSpec, count: int) -> Seq<char>
    decreases count,
{
    if count <= 0 {
        Seq::empty()
    } else {
        oibits_upto(crate_, described, count - 1) + oibit_text(
            crate_,
            described,
            described.oibits[count - 1],
        )
    }
}

/// The marker impls of every capability of the description, in its order.
pub open spec fn oibits_text(crate_: Seq<char>, described: ForeignTypeSpec) -> Seq<char> {
    oibits_upto(crate_, described, described.oibits.len() as int)
}

/// Emits the marker impls of every declared capability.
pub fn build_oibits(crate_: &str, input: &ForeignType) -> (out: String)
    ensures
        out@ == oibits_text(crate_@, input@),
{
    let mut out = String::new();
    let mut i: usize = 0;
    while i < input.oibits.len()
        invariant
            i <= input.oibits.len(),
            out@ == oibits_upto(crate_@, input@, i as int),
        decreases input.oibits.len() - i,
    {
        proof {
            assert(oibits_upto(crate_@, input@, i + 1) == oibits_upto(crate_@, input@, i as int)
                + oibit_text(crate_@, input@, input@.oibits[i as int]));
        }
        let piece = build_oibit(crate_, input, input.oibits[i]);
        out.append(piece.as_str());
        i = i + 1;
    }
    out
}

/// The impls of the library's two traits: the owned type adopts a pointer
/// and hands it out; the borrowed type takes the trait's own methods.
pub open spec fn foreign_impls_text(crate_: Seq<char>, described: ForeignTypeSpec) -> Seq<char> {
    "impl "@
    + crate_
    + "::ForeignType for "@
    + described.name
    + " {\n    type CType = "@
    + described.ctype
    + ";\n    type Ref = "@
    + ref_name_of(described.name)
    + ";\n    #[inline]\n    unsafe fn from_ptr(ptr: *mut "@
    + described.ctype
    + ") -> "@
    + described.name
    + " {\n        debug_assert!(!ptr.is_null());\n        "@
    + described.name
    + "(<"@
    + crate_
    + "::export::NonNull<_>>::new_unchecked(ptr))\n    }\n    #[inline]\n    fn as_ptr(&self) -> *mut "@
    + described.ctype
    + " {\n        <"@
    + crate_
    + "::export::NonNull<_>>::as_ptr(self.0)\n    }\n}\nimpl "@
    + crate_
    + "::ForeignTypeRef for "@
    + ref_name_of(described.name)
    + " {\n    type CType = "@
    + described.ctype
    + ";\n}\n"@
}

/// Emits the impls of the library's traits for the two types.
pub fn build_foreign_impls(crate_: &str, input: &ForeignType) -> (out: String)
    ensures
        out@ == foreign_impls_text(crate_@, input@),
{
    let borrowed = ref_name(input);
    let mut out = String::from_str("impl ");
    out.append(crate_);
    out.append("::ForeignType for ");
    out.append(input.name.as_str());
    out.append(" {\n    type CType = ");
    out.append(input.ctype.as_str());
    out.append(";\n    type Ref = ");
    out.append(borrowed.as_str());
    out.append(";\n    #[inline]\n    unsafe fn from_ptr(ptr: *mut ");
    out.append(input.ctype.as_str());
    out.append(") -> ");
    out.append(input.name.as_str());
    out.append(" {\n        debug_assert!(!ptr.is_null());\n        ");
    out.append(input.name.as_str());
    out.append("(<");
    out.append(crate_);
    out.append("::export::NonNull<_>>::new_unchecked(ptr))\n    }\n    #[inline]\n    fn as_ptr(&self) -> *mut ");
    out.append(input.ctype.as_str());
    out.append(" {\n        <");
    out.append(crate_);
    out.append("::export::NonNull<_>>::as_ptr(self.0)\n    }\n}\nimpl ");
    out.append(crate_);
    out.append("::ForeignTypeRef for ");
    out.append(borrowed.as_str());
    out.append(" {\n    type CType = ");
    out.append(input.ctype.as_str());
    out.append(";\n}\n");
    out
}

/// The destructor of the owned type: one call of the description's
/// destructor on the pointer.
pub open spec fn drop_impl_text(crate_: Seq<char>, described: ForeignTypeSpec) -> Seq<char> {
    "impl "@
    + crate_
    + "::export::Drop for "@
    + described.name
    + " {\n    #[inline]\n    fn drop(&mut self) {\n        unsafe {\n            "@
    + described.drop
    + "("@
    + crate_
    + "::ForeignType::as_ptr(self));\n        }\n    }\n}\n"@
}

/// Emits the destructor of the owned type.
pub fn build_drop_impl(crate_: &str, input: &ForeignType) -> (out: String)
    ensures
        out@ == drop_impl_text(crate_@, input@),
{
    let mut out = String::from_str("impl ");
    out.append(crate_);
    out.append("::export::Drop for ");
    out.append(input.name.as_str());
    out.append(" {\n    #[inline]\n    fn drop(&mut self) {\n        unsafe {\n            ");
    out.append(input.drop.as_str());
    out.append("(");
    out.append(crate_);
    out.append("::ForeignType::as_ptr(self));\n        }\n    }\n}\n");
    out
}

/// The two impls by which the owned type dereferences to the borrowed type,
/// shared and mutable, at the same address.
pub open spec fn deref_impls_text(crate_: Seq<char>, described: ForeignTypeSpec) -> Seq<char> {
    "impl "@
    + crate_
    + "::export::Deref for "@
    + described.name
    + " {\n    type Target = "@
    + ref_name_of(described.name)
    + ";\n    #[inline]\n    fn deref(&self) -> &"@
    + ref_name_of(described.name)
    + " {\n        unsafe {\n            "@
    + crate_
    + "::ForeignTypeRef::from_ptr("@
    + crate_
    + "::ForeignType::as_ptr(self))\n        }\n    }\n}\nimpl "@
    + crate_
    + "::export::DerefMut for "@
    + described.name
    + " {\n    #[inline]\n    fn deref_mut(&mut self) -> &mut "@
    + ref_name_of(described.name)
    + " {\n        unsafe {\n            "@
    + crate_
    + "::ForeignTypeRef::from_ptr_mut("@
    + crate_
    + "::ForeignType::as_ptr(self))\n        }\n    }\n}\n"@
}

/// Emits the impls by which the owned type dereferences to the borrowed type.
pub fn build_deref_impls(crate_: &str, input: &ForeignType) -> (out: String)
    ensures
        out@ == deref_impls_text(crate_@, input@),
{
    let borrowed = ref_name(input);
    let mut out = String::from_str("impl ");
    out.append(crate_);
    out.append("::export::Deref for ");
    out.append(input.name.as_str());
    out.append(" {\n    type Target = ");
    out.append(borrowed.as_str());
    out.append(";\n    #[inline]\n    fn deref(&self) -> &");
    out.append(borrowed.as_str());
    out.append(" {\n        unsafe {\n            ");
    out.append(crate_);
    out.append("::ForeignTypeRef::from_ptr(");
    out.append(crate_);
    out.append("::ForeignType::as_ptr(self))\n        }\n    }\n}\nimpl ");
    out.append(crate_);
    out.append("::export::DerefMut for ");
    out.append(input.name.as_str());
    out.append(" {\n    #[inline]\n    fn deref_mut(&mut self) -> &mut ");
    out.append(borrowed.as_str());
    out.append(" {\n        unsafe {\n            ");
    out.append(crate_);
    out.append("::ForeignTypeRef::from_ptr_mut(");
    out.append(crate_);
    out.append("::ForeignType::as_ptr(self))\n        }\n    }\n}\n");
    out
}

/// The two impls by which the owned type is borrowed as the borrowed type.
pub open spec fn borrow_impls_text(crate_: Seq<char>, described: ForeignTypeSpec) -> Seq<char> {
    "impl "@
    + crate_
    + "::export::Borrow<"@
    + ref_name_of(described.name)
    + "> for "@
    + described.name
    + " {\n    #[inline]\n    fn borrow(&self) -> &"@
    + ref_name_of(described.name)
    + " {\n        &**self\n    }\n}\nimpl "@
    + crate_
    + "::export::BorrowMut<"@
    + ref_name_of(described.name)
    + "> for "@
    + described.name
    + " {\n    #[inline]\n    fn borrow_mut(&mut self) -> &mut "@
    + ref_name_of(described.name)
    + " {\n        &mut **self\n    }\n}\n"@
}

/// Emits the impls by which the owned type is borrowed as the borrowed type.
pub fn build_borrow_impls(crate_: &str, input: &ForeignType) -> (out: String)
    ensures
        out@ == borrow_impls_text(crate_@, input@),
{
    let borrowed = ref_name(input);
    let mut out = String::from_str("impl ");
    out.append(crate_);
    out.append("::export::Borrow<");
    out.append(borrowed.as_str());
    out.append("> for ");
    out.append(input.name.as_str());
    out.append(" {\n    #[inline]\n    fn borrow(&self) -> &");
    out.append(borrowed.as_str());
    out.append(" {\n        &**self\n    }\n}\nimpl ");
    out.append(crate_);
    out.append("::export::BorrowMut<");
    out.append(borrowed.as_str());
    out.append("> for ");
    out.append(input.name.as_str());
    out.append(" {\n    #[inline]\n    fn borrow_mut(&mut self) -> &mut ");
    out.append(borrowed.as_str());
    out.append(" {\n        &mut **self\n    }\n}\n");
    out
}

/// The two impls by which the owned type converts to a reference to the
/// borrowed type.
pub open spec fn as_ref_impls_text(crate_: Seq<char>, described: ForeignTypeSpec) -> Seq<char> {
    "impl "@
    + crate_
    + "::export::AsRef<"@
    + ref_name_of(described.name)
    + "> for "@
    + described.name
    + " {\n    #[inline]\n    fn as_ref(&self) -> &"@
    + ref_name_of(described.name)
    + " {\n        &**self\n    }\n}\nimpl "@
    + crate_
    + "::export::AsMut<"@
    + ref_name_of(described.name)
    + "> for "@
    + described.name
    + " {\n    #[inline]\n    fn as_mut(&mut self) -> &mut "@
    + ref_name_of(described.name)
    + " {\n        &mut **self\n    }\n}\n"@
}

/// Emits the impls by which the owned type converts to a reference to the borrowed type.
pub fn build_as_ref_impls(crate_: &str, input: &ForeignType) -> (out: String)
    ensures
        out@ == as_ref_impls_text(crate_@, input@),
{
    let borrowed = ref_name(input);
    let mut out = String::from_str("impl ");
    out.append(crate_);
    out.append("::export::AsRef<");
    out.append(borrowed.as_str());
    out.append("> for ");
    out.append(input.name.as_str());
    out.append(" {\n    #[inline]\n    fn as_ref(&self) -> &");
    out.append(borrowed.as_str());
    out.append(" {\n        &**self\n    }\n}\nimpl ");
    out.append(crate_);
    out.append("::export::AsMut<");
    out.append(borrowed.as_str());
    out.append("> for ");
    out.append(input.name.as_str());
    out.append(" {\n    #[inline]\n    fn as_mut(&mut self) -> &mut ");
    out.append(borrowed.as_str());
    out.append(" {\n        &mut **self\n    }\n}\n");
    out
}

/// The duplication of the owned type through `duplicator`: one call of it on
/// the pointer, and the adoption of what it returns.
pub open spec fn clone_with(crate_: Seq<char>, described: ForeignTypeSpec, duplicator: Seq<char>) -> Seq<
    char,
> {
    "impl "@
    + crate_
    + "::export::Clone for "@
    + described.name
    + " {\n    #[inline]\n    fn clone(&self) -> "@
    + described.name
    + " {\n        unsafe {\n            let ptr = "@
    + duplicator
    + "("@
    + crate_
    + "::ForeignType::as_ptr(self));\n            "@
    + crate_
    + "::ForeignType::from_ptr(ptr)\n        }\n    }\n}\n"@
}

/// The impl that duplicates an owned value: present where the description declares a duplicator, and
/// otherwise empty.
pub open spec fn clone_impl_text(crate_: Seq<char>, described: ForeignTypeSpec) -> Seq<char> {
    match described.clone {
        Some(duplicator) => clone_with(crate_, described, duplicator),
        None => Seq::empty(),
    }
}

/// Emits the impl that duplicates an owned value, or nothing where the description declares no
/// duplicator.
pub fn build_clone_impl(crate_: &str, input: &ForeignType) -> (out: String)
    ensures
        out@ == clone_impl_text(crate_@, input@),
{
    match &input.clone {
        None => String::new(),
        Some(duplicator) => {
            let duplicator = duplicator.as_str();
            let mut out = String::from_str("impl ");
            out.append(crate_);
            out.append("::export::Clone for ");
            out.append(input.name.as_str());
            out.append(" {\n    #[inline]\n    fn clone(&self) -> ");
            out.append(input.name.as_str());
            out.append(" {\n        unsafe {\n            let ptr = ");
            out.append(duplicator);
            out.append("(");
            out.append(crate_);
            out.append("::ForeignType::as_ptr(self));\n            ");
            out.append(crate_);
            out.append("::ForeignType::from_ptr(ptr)\n        }\n    }\n}\n");
            out
        },
    }
}

/// The duplication from the borrowed type through `duplicator`: one call of
/// it on the pointer, and the adoption of what it returns as an owned value.
pub open spec fn to_owned_with(crate_: Seq<char>, described: ForeignTypeSpec, duplicator: Seq<char>) -> Seq<
    char,
> {
    "impl "@
    + crate_
    + "::export::ToOwned for "@
    + ref_name_of(described.name)
    + " {\n    type Owned = "@
    + described.name
    + ";\n    #[inline]\n    fn to_owned(&self) -> "@
    + described.name
    + " {\n        unsafe {\n            let ptr = "@
    + duplicator
    + "("@
    + crate_
    + "::ForeignTypeRef::as_ptr(self));\n            "@
    + crate_
    + "::ForeignType::from_ptr(ptr)\n        }\n    }\n}\n"@
}

/// The impl that duplicates from a borrowed value: present where the description declares a duplicator, and
/// otherwise empty.
pub open spec fn to_owned_impl_text(crate_: Seq<char>, described: ForeignTypeSpec) -> Seq<char> {
    match described.clone {
        Some(duplicator) => to_owned_with(crate_, described, duplicator),
        None => Seq::empty(),
    }
}

/// Emits the impl that duplicates from a borrowed value, or nothing where the description declares no
/// duplicator.
pub fn build_to_owned_impl(crate_: &str, input: &ForeignType) -> (out: String)
    ensures
        out@ == to_owned_impl_text(crate_@, input@),
{
    match &input.clone {
        None => String::new(),
        Some(duplicator) => {
            let duplicator = duplicator.as_str();
            let borrowed = ref_name(input);
            let mut out = String::from_str("impl ");
            out.append(crate_);
            out.append("::export::ToOwned for ");
            out.append(borrowed.as_str());
            out.append(" {\n    type Owned = ");
            out.append(input.name.as_str());
            out.append(";\n    #[inline]\n    fn to_owned(&self) -> ");
            out.append(input.name.as_str());
            out.append(" {\n        unsafe {\n            let ptr = ");
            out.append(duplicator);
            out.append("(");
            out.append(crate_);
            out.append("::ForeignTypeRef::as_ptr(self));\n            ");
            out.append(crate_);
            out.append("::ForeignType::from_ptr(ptr)\n        }\n    }\n}\n");
            out
        },
    }
}

/// All that is emitted for one description: the declarations, the marker
/// impls, the trait impls, the destructor, the conversions from owned to
/// borrowed and, where there is a duplicator, the duplicating impls.
#[verifier::opaque]
pub open spec fn foreign_type_text(crate_: Seq<char>, described: ForeignTypeSpec) -> Seq<char> {
    decls_text(crate_, described)
    + oibits_text(crate_, described)
    + foreign_impls_text(crate_, described)
    + drop_impl_text(crate_, described)
    + deref_impls_text(crate_, described)
    + borrow_impls_text(crate_, described)
    + as_ref_impls_text(crate_, described)
    + clone_impl_text(crate_, described)
    + to_owned_impl_text(crate_, described)
}

/// Emits the two types for one description, with all their impls.
pub fn build_foreign_type(crate_: &str, input: &ForeignType) -> (out: String)
    ensures
        out@ == foreign_type_text(crate_@, input@),
{
    proof {
        reveal(foreign_type_text);
    }
    let mut out = build_decls(crate_, input);
    out.append(build_oibits(crate_, input).as_str());
    out.append(build_foreign_impls(crate_, input).as_str());
    out.append(build_drop_impl(crate_, input).as_str());
    out.append(build_deref_impls(crate_, input).as_str());
    out.append(build_borrow_impls(crate_, input).as_str());
    out.append(build_as_ref_impls(crate_, input).as_str());
    out.append(build_clone_impl(crate_, input).as_str());
    out.append(build_to_owned_impl(crate_, input).as_str());
    out
}

/// What is emitted for the first `count` descriptions of an input.
pub open spec fn types_upto(input: InputSpec, count: int) -> Seq<char>
    decreases count,
{
    if count <= 0 {
        Seq::empty()
    } else {
        types_upto(input, count - 1) + foreign_type_text(input.crate_, input.types[count - 1])
    }
}

/// What is emitted for an input: the text for each description, in the
/// order of the input.
pub open spec fn input_text(input: InputSpec) -> Seq<char> {
    types_upto(input, input.types.len() as int)
}

/// Emits the types for every description of `input`.
pub fn build(input: &Input) -> (out: String)
    ensures
        out@ == input_text(input@),
{
    let mut out = String::new();
    let mut i: usize = 0;
    while i < input.types.len()
        invariant
            i <= input.types.len(),
            out@ == types_upto(input@, i as int),
        decreases input.types.len() - i,
    {
        proof {
            assert(input@.types[i as int] == input.types@[i as int]@);
            assert(types_upto(input@, i + 1) == types_upto(input@, i as int) + foreign_type_text(
                input@.crate_,
                input@.types[i as int],
            ));
        }
        let piece = build_foreign_type(input.crate_.as_str(), &input.types[i]);
        out.append(piece.as_str());
        i = i + 1;
    }
    out
}

/// A description without a duplicator yields no duplicating impl: neither
/// for the owned nor for the borrowed type is any text emitted, and the
/// whole text for the description is that of its other parts.
pub proof fn no_duplicator_no_duplication(crate_: Seq<char>, described: ForeignTypeSpec)
    requires
        described.clone is None,
    ensures
        clone_impl_text(crate_, described) == Seq::<char>::empty(),
        to_owned_impl_text(crate_, described) == Seq::<char>::empty(),
        foreign_type_text(crate_, described) == decls_text(crate_, described) + oibits_text(
            crate_,
            described,
        ) + foreign_impls_text(crate_, described) + drop_impl_text(crate_, described)
            + deref_impls_text(crate_, described) + borrow_impls_text(crate_, described)
            + as_ref_impls_text(crate_, described),
{
    reveal(foreign_type_text);
    let base = decls_text(crate_, described) + oibits_text(crate_, described) + foreign_impls_text(
        crate_,
        described,
    ) + drop_impl_text(crate_, described) + deref_impls_text(crate_, described)
        + borrow_impls_text(crate_, described) + as_ref_impls_text(crate_, described);
    assert(base + Seq::<char>::empty() =~= base);
}

} // verus!
