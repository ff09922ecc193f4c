//! Compile-time code generators for enumerated types with unit-only
//! variants: given the declaration's identifier and ordered variant list,
//! they synthesize navigation methods (`next`/`prev`) under a cyclic or a
//! bounded policy, or a forward-only iterator over the variants, as source
//! text to be spliced back into the compilation.

use vstd::prelude::*;

pub mod cursor;
pub mod decl;
pub mod emit;
pub mod parse;
pub mod table;

pub use decl::GenError;
pub use decl::TypeDecl;
pub use decl::VariantDecl;

use decl::collect_spec;
use decl::collect_variants;
use decl::lemma_pairs_of_decl;
use emit::emit_iter;
use emit::emit_rotate;
use emit::emit_shift;
use emit::iter_impl_text;
use emit::rotate_impl_text;
use emit::shift_impl_text;
use parse::read_declaration;
use parse::stream_gen_spec;

verus! {

/// The rotate generator on a collected declaration: the emitted impl block
/// whose `next` and `prev` rotate cyclically through the variants, or the
/// rejection of the declaration.
pub fn rotate_source(decl: &TypeDecl) -> (r: Result<String, GenError>)
    ensures
        match r {
            Ok(t) => collect_spec(*decl, false) matches Ok(p) && t@ == rotate_impl_text(p.0, p.1),
            Err(e) => collect_spec(*decl, false) == Err::<(Seq<char>, Seq<Seq<char>>), _>(e),
        },
{
    match collect_variants(decl, false) {
        Ok((name, names)) => Ok(emit_rotate(&name, &names)),
        Err(e) => Err(e),
    }
}

/// The shift generator on a collected declaration: the emitted impl block
/// whose `next` and `prev` step through the variants and exhaust at either
/// end, or the rejection of the declaration.
pub fn shift_source(decl: &TypeDecl) -> (r: Result<String, GenError>)
    ensures
        match r {
            Ok(t) => collect_spec(*decl, false) matches Ok(p) && t@ == shift_impl_text(p.0, p.1),
            Err(e) => collect_spec(*decl, false) == Err::<(Seq<char>, Seq<Seq<char>>), _>(e),
        },
{
    match collect_variants(decl, false) {
        Ok((name, names)) => Ok(emit_shift(&name, &names)),
        Err(e) => Err(e),
    }
}

/// The iteration generator on a collected declaration: the emitted cursor
/// type and iterator implementation, or the rejection of the declaration;
/// unlike the other two it also rejects an enum with no variants.
pub fn iter_source(decl: &TypeDecl) -> (r: Result<String, GenError>)
    ensures
        match r {
            Ok(t) => collect_spec(*decl, true) matches Ok(p) && t@ == iter_impl_text(p.0, p.1),
            Err(e) => collect_spec(*decl, true) == Err::<(Seq<char>, Seq<Seq<char>>), _>(e),
        },
{
    match collect_variants(decl, true) {
        Ok((name, names)) => {
            proof {
                assert(decl::name_views(names@).len() == names@.len());
                assert(names@.len() >= 1);
            }
            Ok(emit_iter(&name, &names))
        },
        Err(e) => Err(e),
    }
}

/// A declaration read back from a token stream collects to the same answer
/// as the stream itself determines.
proof fn lemma_stream_collect(ts: proc_macro2::TokenStream, decl: TypeDecl, require_nonempty: bool)
    requires
        match decl {
            TypeDecl::Enum { name, variants } => {
                &&& parse::stream_enum_variants(ts) == Some(decl::variant_pairs(variants@))
                &&& name@ == parse::stream_type_name(ts)
            },
            TypeDecl::NotEnum => parse::stream_enum_variants(ts) is None,
        },
    ensures
        collect_spec(decl, require_nonempty) == stream_gen_spec(ts, require_nonempty),
{
    match decl {
        TypeDecl::Enum { name, variants } => {
            lemma_pairs_of_decl(variants@);
        },
        TypeDecl::NotEnum => {},
    }
}

/// The rotate generator, from the raw token stream of the annotated
/// declaration to the emitted source text or the fatal rejection.
pub fn rotate_enum(input: proc_macro2::TokenStream) -> (r: Result<String, GenError>)
    ensures
        match r {
            Ok(t) => stream_gen_spec(input, false) matches Ok(p) && t@ == rotate_impl_text(
                p.0,
                p.1,
            ),
            Err(e) => stream_gen_spec(input, false) == Err::<(Seq<char>, Seq<Seq<char>>), _>(e),
        },
{
    let decl = read_declaration(input);
    proof {
        lemma_stream_collect(input, decl, false);
    }
    rotate_source(&decl)
}

/// The shift generator, from the raw token stream of the annotated
/// declaration to the emitted source text or the fatal rejection.
pub fn shift_enum(input: proc_macro2::TokenStream) -> (r: Result<String, GenError>)
    ensures
        match r {
            Ok(t) => stream_gen_spec(input, false) matches Ok(p) && t@ == shift_impl_text(p.0, p.1),
            Err(e) => stream_gen_spec(input, false) == Err::<(Seq<char>, Seq<Seq<char>>), _>(e),
        },
{
    let decl = read_declaration(input);
    proof {
        lemma_stream_collect(input, decl, false);
    }
    shift_source(&decl)
}

/// The iteration generator, from the raw token stream of the annotated
/// declaration to the emitted source text or the fatal rejection.
pub fn iter_enum(input: proc_macro2::TokenStream) -> (r: Result<String, GenError>)
    ensures
        match r {
            Ok(t) => stream_gen_spec(input, true) matches Ok(p) && t@ == iter_impl_text(p.0, p.1),
            Err(e) => stream_gen_spec(input, true) == Err::<(Seq<char>, Seq<Seq<char>>), _>(e),
        },
{
    let decl = read_declaration(input);
    proof {
        lemma_stream_collect(input, decl, true);
    }
    iter_source(&decl)
}

} // verus!

