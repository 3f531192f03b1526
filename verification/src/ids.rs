//! The identity scheme: 64-bit ids for packages, types and members, each a
//! keyed hash of a name or of a name and a shape.
//!
//! Ids are pure functions of what they name. Two binaries that never met
//! compute the same id for the same name, so ids can stand in for link-time
//! symbols. Packages, types and members are hashed under three different
//! secrets, so a type and a member that share a name do not share an id.
use vstd::prelude::*;
use vstd::std_specs::cmp::PartialEqSpec;
use vstd::utf8::encode_utf8;

use crate::model::{Argument, ArgumentView, TypeRef, TypeRefView};

verus! {

/// The 64-bit XXH3 hash of `input` under `secret`.
pub uninterp spec fn xxh3_64_with_secret(input: Seq<u8>, secret: Seq<u8>) -> u64;

/// The 192-byte XXH3 secret derived from `seed`.
pub uninterp spec fn custom_default_secret(seed: u64) -> Seq<u8>;

/// `xxhash_rust::xxh3::xxh3_64_with_secret`: the hash depends on the input
/// bytes and the secret bytes alone. The function panics on a secret shorter
/// than 136 bytes, which a 192-byte array is not.
#[verifier::external_body]
fn hash_with_secret(input: &[u8], secret: &[u8; 192]) -> (hash: u64)
    ensures
        hash == xxh3_64_with_secret(input@, secret@),
{
    xxhash_rust::xxh3::xxh3_64_with_secret(input, secret)
}

/// `xxhash_rust::const_xxh3::const_custom_default_secret`: the secret depends
/// on the seed alone.
#[verifier::external_body]
fn derive_secret(seed: u64) -> (secret: [u8; 192])
    ensures
        secret@ == custom_default_secret(seed),
{
    xxhash_rust::const_xxh3::const_custom_default_secret(seed)
}

/// Seed of the secret under which package names are hashed.
pub const PACKAGE_SEED: u64 = 772;

/// Seed of the secret under which type names are hashed.
pub const TYPE_SEED: u64 = 4900;

/// Seed of the secret under which member names are hashed.
pub const MEMBER_SEED: u64 = 18257;

/// The id of the package called `name`.
pub open spec fn package_id(name: Seq<char>) -> u64 {
    xxh3_64_with_secret(encode_utf8(name), custom_default_secret(PACKAGE_SEED))
}

/// The id of the type whose full name (namespace included) is `name`.
pub open spec fn type_id(name: Seq<char>) -> u64 {
    xxh3_64_with_secret(encode_utf8(name), custom_default_secret(TYPE_SEED))
}

/// The id of the property, field or variant called `name`.
pub open spec fn member_id(name: Seq<char>) -> u64 {
    xxh3_64_with_secret(encode_utf8(name), custom_default_secret(MEMBER_SEED))
}

/// The eight bytes of `x`, most significant first.
pub open spec fn u64_be_bytes(x: u64) -> Seq<u8> {
    seq![
        ((x >> 56) & 0xff) as u8,
        ((x >> 48) & 0xff) as u8,
        ((x >> 40) & 0xff) as u8,
        ((x >> 32) & 0xff) as u8,
        ((x >> 24) & 0xff) as u8,
        ((x >> 16) & 0xff) as u8,
        ((x >> 8) & 0xff) as u8,
        (x & 0xff) as u8,
    ]
}

/// Tag byte that opens the bytes of a generic reference.
pub const GENERIC_TAG: u8 = 0;

/// Tag byte that opens the bytes of a tuple reference.
pub const TUPLE_TAG: u8 = 1;

/// Tag byte that opens the bytes of a function reference.
pub const FN_TAG: u8 = 2;

/// The structural bytes of a type reference.
///
/// A name contributes the big-endian bytes of its type id, an id its own
/// big-endian bytes. A generic reference is its tag, then the base, then each
/// argument in order; a tuple is its tag, then each item; a function is its
/// tag, then the return type (eight zero bytes where there is none), then
/// each argument.
pub open spec fn typeref_bytes(t: TypeRefView) -> Seq<u8>
    decreases t,
{
    match t {
        TypeRefView::Name(name) => u64_be_bytes(type_id(name)),
        TypeRefView::Id(id) => u64_be_bytes(id),
        TypeRefView::Generic(base, args) => seq![GENERIC_TAG] + typeref_bytes(*base)
            + typerefs_bytes(args),
        TypeRefView::Tuple(items) => seq![TUPLE_TAG] + typerefs_bytes(items),
        TypeRefView::Fn(ret, args) => seq![FN_TAG] + (match ret {
            Some(r) => typeref_bytes(*r),
            None => u64_be_bytes(0),
        }) + typerefs_bytes(args),
    }
}

/// The structural bytes of each reference in `ts`, one after the other.
pub open spec fn typerefs_bytes(ts: Seq<TypeRefView>) -> Seq<u8>
    decreases ts,
{
    if ts.len() == 0 {
        Seq::empty()
    } else {
        typerefs_bytes(ts.drop_last()) + typeref_bytes(ts.last())
    }
}

/// `typerefs_bytes` of a sequence and one more reference.
pub proof fn lemma_typerefs_bytes_push(ts: Seq<TypeRefView>, t: TypeRefView)
    ensures
        typerefs_bytes(ts.push(t)) == typerefs_bytes(ts) + typeref_bytes(t),
{
    assert(ts.push(t).drop_last() =~= ts);
}

/// The types of the arguments, in order.
pub open spec fn argument_types(args: Seq<ArgumentView>) -> Seq<TypeRefView> {
    args.map_values(|a: ArgumentView| a.1)
}

/// What is hashed for the method called `name` that takes `args`: the
/// bytes of the name, then the structural bytes of each argument's type.
pub open spec fn method_bytes(name: Seq<char>, args: Seq<ArgumentView>) -> Seq<u8> {
    encode_utf8(name) + typerefs_bytes(argument_types(args))
}

/// The id of the method called `name` that takes `args`: the member hash of
/// the name's bytes followed by the structural bytes of each argument's type.
pub open spec fn method_id(name: Seq<char>, args: Seq<ArgumentView>) -> u64 {
    xxh3_64_with_secret(method_bytes(name, args), custom_default_secret(MEMBER_SEED))
}

/// Ids are functions of names: whoever hashes the same name gets the same
/// id, whenever and wherever.
pub proof fn lemma_same_name_same_id(a: Seq<char>, b: Seq<char>)
    requires
        a == b,
    ensures
        package_id(a) == package_id(b),
        type_id(a) == type_id(b),
        member_id(a) == member_id(b),
{
}

/// Overloads hash different bytes: of two methods of one name whose
/// argument types differ in their structural bytes, different byte strings
/// are hashed. (That the hashes differ too is up to the hash.)
pub proof fn lemma_overloads_hash_different_bytes(
    name: Seq<char>,
    first: Seq<ArgumentView>,
    second: Seq<ArgumentView>,
)
    requires
        typerefs_bytes(argument_types(first)) != typerefs_bytes(argument_types(second)),
    ensures
        method_bytes(name, first) != method_bytes(name, second),
{
    let head = encode_utf8(name);
    let a = typerefs_bytes(argument_types(first));
    let b = typerefs_bytes(argument_types(second));
    if head + a == head + b {
        assert((head + a).subrange(head.len() as int, (head + a).len() as int) =~= a);
        assert((head + b).subrange(head.len() as int, (head + b).len() as int) =~= b);
        assert(false);
    }
}

/// The id of the package called `name`.
pub fn generate_package_id(name: &str) -> (id: u64)
    ensures
        id == package_id(name@),
{
    let secret = derive_secret(PACKAGE_SEED);
    hash_with_secret(name.as_bytes(), &secret)
}

/// The id of the type whose full name (namespace included) is `name`.
pub fn generate_type_id(name: &str) -> (id: u64)
    ensures
        id == type_id(name@),
{
    let secret = derive_secret(TYPE_SEED);
    hash_with_secret(name.as_bytes(), &secret)
}

/// The id of the property, field or variant called `name`.
pub fn generate_member_id(name: &str) -> (id: u64)
    ensures
        id == member_id(name@),
{
    let secret = derive_secret(MEMBER_SEED);
    hash_with_secret(name.as_bytes(), &secret)
}

/// The eight bytes of `x`, most significant first.
pub fn u64_to_be_bytes(x: u64) -> (bytes: Vec<u8>)
    ensures
        bytes@ == u64_be_bytes(x),
{
    let mut bytes: Vec<u8> = Vec::with_capacity(8);
    bytes.push(((x >> 56) & 0xff) as u8);
    bytes.push(((x >> 48) & 0xff) as u8);
    bytes.push(((x >> 40) & 0xff) as u8);
    bytes.push(((x >> 32) & 0xff) as u8);
    bytes.push(((x >> 24) & 0xff) as u8);
    bytes.push(((x >> 16) & 0xff) as u8);
    bytes.push(((x >> 8) & 0xff) as u8);
    bytes.push((x & 0xff) as u8);
    assert(bytes@ =~= u64_be_bytes(x));
    bytes
}

/// Appends `src` to `dst`.
pub(crate) fn extend_bytes(dst: &mut Vec<u8>, src: &Vec<u8>)
    ensures
        final(dst)@ == old(dst)@ + src@,
{
    let mut i: usize = 0;
    while i < src.len()
        invariant
            i <= src.len(),
            dst@ == old(dst)@ + src@.subrange(0, i as int),
        decreases src.len() - i,
    {
        dst.push(src[i]);
        i += 1;
        assert(dst@ =~= old(dst)@ + src@.subrange(0, i as int));
    }
    assert(src@.subrange(0, src.len() as int) =~= src@);
}

/// Appends the structural bytes of each reference in `ts` to `out`.
fn extend_typerefs_bytes(out: &mut Vec<u8>, ts: &Vec<TypeRef>)
    ensures
        final(out)@ == old(out)@ + typerefs_bytes(ts.deep_view()),
    decreases ts,
{
    let mut i: usize = 0;
    assert(ts.deep_view().subrange(0, 0) =~= Seq::<TypeRefView>::empty());
    assert(typerefs_bytes(Seq::<TypeRefView>::empty()) =~= Seq::<u8>::empty());
    while i < ts.len()
        invariant
            i <= ts.len(),
            out@ == old(out)@ + typerefs_bytes(ts.deep_view().subrange(0, i as int)),
        decreases ts.len() - i,
    {
        let bytes = get_typeref_bytes(&ts[i]);
        extend_bytes(out, &bytes);
        proof {
            let done = ts.deep_view().subrange(0, i as int);
            lemma_typerefs_bytes_push(done, ts@[i as int]@);
            assert(done.push(ts@[i as int]@) =~= ts.deep_view().subrange(0, i + 1));
        }
        i += 1;
    }
    assert(ts.deep_view().subrange(0, ts.len() as int) =~= ts.deep_view());
}

/// The structural bytes of a type reference: what two sides of a boundary
/// compare to decide whether they mean the same type.
pub fn get_typeref_bytes(type_ref: &TypeRef) -> (bytes: Vec<u8>)
    ensures
        bytes@ == typeref_bytes(type_ref@),
    decreases type_ref,
{
    proof {
        crate::model::lemma_typeref_view(*type_ref);
    }
    match type_ref {
        TypeRef::Name(name) => u64_to_be_bytes(generate_type_id(name.as_str())),
        TypeRef::Id(id) => u64_to_be_bytes(*id),
        TypeRef::Generic(base, generics) => {
            let mut bytes: Vec<u8> = Vec::new();
            bytes.push(GENERIC_TAG);
            let base_bytes = get_typeref_bytes(base);
            extend_bytes(&mut bytes, &base_bytes);
            extend_typerefs_bytes(&mut bytes, generics);
            assert(bytes@ =~= typeref_bytes(type_ref@));
            bytes
        },
        TypeRef::Tuple(types) => {
            let mut bytes: Vec<u8> = Vec::new();
            bytes.push(TUPLE_TAG);
            extend_typerefs_bytes(&mut bytes, types);
            assert(bytes@ =~= typeref_bytes(type_ref@));
            bytes
        },
        TypeRef::Fn(return_type, arg_types) => {
            let ret_bytes = match return_type {
                Some(ret_type) => get_typeref_bytes(ret_type),
                None => u64_to_be_bytes(0),
            };
            let mut bytes: Vec<u8> = Vec::new();
            bytes.push(FN_TAG);
            extend_bytes(&mut bytes, &ret_bytes);
            extend_typerefs_bytes(&mut bytes, arg_types);
            assert(bytes@ =~= typeref_bytes(type_ref@));
            bytes
        },
    }
}

/// The id of the method called `name` that takes `args`. Overloads that
/// differ in an argument's type hash different bytes.
pub fn generate_method_id(name: &str, args: &Vec<Argument>) -> (id: u64)
    ensures
        id == method_id(name@, args.deep_view()),
{
    let mut bytes: Vec<u8> = name.as_bytes_vec();
    let mut i: usize = 0;
    let ghost types = argument_types(args.deep_view());
    assert(types.subrange(0, 0) =~= Seq::<TypeRefView>::empty());
    assert(typerefs_bytes(Seq::<TypeRefView>::empty()) =~= Seq::<u8>::empty());
    while i < args.len()
        invariant
            i <= args.len(),
            types == argument_types(args.deep_view()),
            bytes@ == encode_utf8(name@) + typerefs_bytes(types.subrange(0, i as int)),
        decreases args.len() - i,
    {
        let arg_bytes = get_typeref_bytes(&args[i].1);
        extend_bytes(&mut bytes, &arg_bytes);
        proof {
            let done = types.subrange(0, i as int);
            lemma_typerefs_bytes_push(done, args@[i as int].1@);
            assert(done.push(args@[i as int].1@) =~= types.subrange(0, i + 1));
        }
        i += 1;
    }
    assert(types.subrange(0, args.len() as int) =~= types);
    let secret = derive_secret(MEMBER_SEED);
    hash_with_secret(bytes.as_slice(), &secret)
}

/// Whether two byte vectors hold the same bytes.
pub(crate) fn same_bytes(a: &Vec<u8>, b: &Vec<u8>) -> (same: bool)
    ensures
        same == (a@ == b@),
{
    if a.len() != b.len() {
        return false;
    }
    let mut i: usize = 0;
    while i < a.len()
        invariant
            i <= a.len(),
            a.len() == b.len(),
            a@.subrange(0, i as int) == b@.subrange(0, i as int),
        decreases a.len() - i,
    {
        if a[i] != b[i] {
            return false;
        }
        i += 1;
        assert(a@.subrange(0, i as int) =~= a@.subrange(0, i - 1).push(a@[i - 1]));
        assert(b@.subrange(0, i as int) =~= b@.subrange(0, i - 1).push(b@[i - 1]));
    }
    assert(a@ =~= a@.subrange(0, a.len() as int));
    assert(b@ =~= b@.subrange(0, b.len() as int));
    true
}

/// Two type references are equal when their structural bytes are equal.
/// No other notion of type equality exists across a boundary.
impl PartialEq for TypeRef {
    fn eq(&self, other: &Self) -> (equal: bool) {
        let mine = get_typeref_bytes(self);
        let theirs = get_typeref_bytes(other);
        same_bytes(&mine, &theirs)
    }
}

impl vstd::std_specs::cmp::PartialEqSpecImpl for TypeRef {
    open spec fn obeys_eq_spec() -> bool {
        true
    }

    open spec fn eq_spec(&self, other: &Self) -> bool {
        typeref_bytes(self@) == typeref_bytes(other@)
    }
}

/// Type references of the same shape are equal, however they were built.
pub proof fn lemma_same_shape_equal(a: TypeRef, b: TypeRef)
    requires
        a@ == b@,
    ensures
        typeref_bytes(a@) == typeref_bytes(b@),
        a.eq_spec(&b),
{
}

} // verus!
