use vstd::prelude::*;

use crate::decl::GenError;
use crate::decl::TypeDecl;
use crate::decl::VariantDecl;
use crate::decl::pair_names;
use crate::decl::pairs_all_unit;
use crate::decl::variant_pairs;

verus! {

#[verifier::external_type_specification]
#[verifier::external_body]
pub struct ExTokenStream(proc_macro2::TokenStream);

/// The identifier of the type the token stream declares, when it parses as
/// an enum declaration; arbitrary otherwise.
pub uninterp spec fn stream_type_name(ts: proc_macro2::TokenStream) -> Seq<char>;

/// The ordered (identifier, carries-data) pairs of the enum declaration the
/// token stream holds, or `None` when it does not parse as one.
pub uninterp spec fn stream_enum_variants(ts: proc_macro2::TokenStream) -> Option<
    Seq<(Seq<char>, bool)>,
>;

/// What a generator's input collection comes to on a token stream: the
/// declared type's identifier with the ordered variant identifiers, or the
/// error that rejects the declaration.
pub open spec fn stream_gen_spec(ts: proc_macro2::TokenStream, require_nonempty: bool) -> Result<
    (Seq<char>, Seq<Seq<char>>),
    GenError,
> {
    match stream_enum_variants(ts) {
        None => Err(GenError::NotAnEnum),
        Some(pairs) => {
            if !pairs_all_unit(pairs) {
                Err(GenError::UnsupportedVariantShape)
            } else if require_nonempty && pairs.len() == 0 {
                Err(GenError::EmptyVariantList)
            } else {
                Ok((stream_type_name(ts), pair_names(pairs)))
            }
        },
    }
}

/// Relies on `syn::parse2::<syn::DeriveInput>`, which parses the token
/// stream of a type declaration into its syntax tree, on the `ident` and
/// `data` fields of the resulting `syn::DeriveInput`, and on
/// `proc_macro2::Ident::to_string`, which renders an identifier losslessly.
/// A variant carries data exactly when its `fields` are not `Fields::Unit`.
#[verifier::external_body]
fn parse_enum_declaration(ts: proc_macro2::TokenStream) -> (r: Option<
    (String, Vec<(String, bool)>),
>)
    ensures
        match r {
            Some(p) => {
                &&& p.0@ == stream_type_name(ts)
                &&& stream_enum_variants(ts) == Some(
                    p.1@.map_values(|q: (String, bool)| (q.0@, q.1)),
                )
            },
            None => stream_enum_variants(ts) is None,
        },
{
    match syn::parse2::<syn::DeriveInput>(ts) {
        Ok(ast) => match &ast.data {
            syn::Data::Enum(data) => {
                let has_data = |v: &syn::Variant| !matches!(v.fields, syn::Fields::Unit);
                let pairs = data.variants.iter().map(|v| (v.ident.to_string(), has_data(v)));
                Some((ast.ident.to_string(), pairs.collect()))
            },
            _ => None,
        },
        Err(_) => None,
    }
}

/// Read the declaration a token stream holds into the library's own form.
pub fn read_declaration(ts: proc_macro2::TokenStream) -> (r: TypeDecl)
    ensures
        match r {
            TypeDecl::Enum { name, variants } => {
                &&& stream_enum_variants(ts) == Some(variant_pairs(variants@))
                &&& name@ == stream_type_name(ts)
            },
            TypeDecl::NotEnum => stream_enum_variants(ts) is None,
        },
{
    match parse_enum_declaration(ts) {
        None => TypeDecl::NotEnum,
        Some((name, pairs)) => {
            let n = pairs.len();
            let mut variants: Vec<VariantDecl> = Vec::new();
            let mut i: usize = 0;
            while i < n
                invariant
                    i <= n,
                    n == pairs@.len(),
                    variants@.len() == i,
                    forall|j: int|
                        0 <= j < i ==> (#[trigger] variants@[j]).name@ == pairs@[j].0@
                            && variants@[j].has_data == pairs@[j].1,
                decreases n - i,
            {
                let vn = pairs[i].0.clone();
                let hd = pairs[i].1;
                variants.push(VariantDecl { name: vn, has_data: hd });
                i += 1;
            }
            proof {
                assert(variant_pairs(variants@) =~= pairs@.map_values(
                    |q: (String, bool)| (q.0@, q.1),
                ));
            }
            TypeDecl::Enum { name, variants }
        },
    }
}

} // verus!
