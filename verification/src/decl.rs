use vstd::prelude::*;

verus! {

/// One case of an enumerated type: its identifier, and whether the
/// declaration attaches data to it (tuple or struct fields).
pub struct VariantDecl {
    pub name: String,
    pub has_data: bool,
}

/// A type declaration as the generators see it: an enumerated type with its
/// identifier and ordered variant list, or some other kind of declaration
/// (a struct or union, say), which every generator rejects.
pub enum TypeDecl {
    Enum { name: String, variants: Vec<VariantDecl> },
    NotEnum,
}

/// Why a generator rejects its input.
#[derive(Clone, Copy, PartialEq, Eq, Structural, Debug)]
pub enum GenError {
    /// The annotated declaration is not an enumerated type.
    NotAnEnum,
    /// A variant carries associated data, which no generator supports.
    UnsupportedVariantShape,
    /// The enum declares no variants, so no starting element exists
    /// (rejected by the iteration generator only).
    EmptyVariantList,
}

/// The views of a list of identifier strings.
pub open spec fn name_views(s: Seq<String>) -> Seq<Seq<char>> {
    s.map_values(|x: String| x@)
}

/// The identifiers of a variant list, in declaration order.
pub open spec fn decl_variant_names(vs: Seq<VariantDecl>) -> Seq<Seq<char>> {
    vs.map_values(|v: VariantDecl| v.name@)
}

/// The (identifier, carries-data) pairs of a variant list.
pub open spec fn variant_pairs(vs: Seq<VariantDecl>) -> Seq<(Seq<char>, bool)> {
    vs.map_values(|v: VariantDecl| (v.name@, v.has_data))
}

/// Whether every variant of the list is a unit variant.
pub open spec fn all_unit(vs: Seq<VariantDecl>) -> bool {
    forall|i: int| 0 <= i < vs.len() ==> !vs[i].has_data
}

/// Whether no pair of an (identifier, carries-data) list carries data.
pub open spec fn pairs_all_unit(pairs: Seq<(Seq<char>, bool)>) -> bool {
    forall|i: int| 0 <= i < pairs.len() ==> !pairs[i].1
}

/// The identifiers of an (identifier, carries-data) list, in order.
pub open spec fn pair_names(pairs: Seq<(Seq<char>, bool)>) -> Seq<Seq<char>> {
    pairs.map_values(|q: (Seq<char>, bool)| q.0)
}

/// The pair view of a variant list carries the same data-freedom and the
/// same identifiers as the list itself.
pub proof fn lemma_pairs_of_decl(vs: Seq<VariantDecl>)
    ensures
        pairs_all_unit(variant_pairs(vs)) <==> all_unit(vs),
        pair_names(variant_pairs(vs)) == decl_variant_names(vs),
{
    if pairs_all_unit(variant_pairs(vs)) {
        assert forall|i: int| 0 <= i < vs.len() implies !(#[trigger] vs[i].has_data) by {
            assert(!variant_pairs(vs)[i].1);
        }
    }
    if all_unit(vs) {
        assert forall|i: int|
            0 <= i < variant_pairs(vs).len() implies !(#[trigger] variant_pairs(vs)[i].1) by {
            assert(!vs[i].has_data);
        }
    }
    assert(pair_names(variant_pairs(vs)) =~= decl_variant_names(vs));
}

/// The fixed diagnostic text for a rejection: it names the generator (by
/// its derive-macro name) and the unmet requirement.
pub open spec fn diagnostic_text(macro_name: Seq<char>, err: GenError) -> Seq<char> {
    match err {
        GenError::NotAnEnum => "derive("@ + macro_name + ") must be applied to an enum"@,
        GenError::UnsupportedVariantShape => "derive("@ + macro_name
            + ") does not support variants with associated data"@,
        GenError::EmptyVariantList => "derive("@ + macro_name
            + ") expects at least one variant in enum"@,
    }
}

/// Diagnostics boundary: render the fatal message for a rejected
/// declaration, with its fixed text.
pub fn diagnostic_message(macro_name: &str, err: &GenError) -> (r: String)
    ensures
        r@ == diagnostic_text(macro_name@, *err),
{
    let mut s = String::new();
    s.append("derive(");
    s.append(macro_name);
    match err {
        GenError::NotAnEnum => s.append(") must be applied to an enum"),
        GenError::UnsupportedVariantShape => s.append(
            ") does not support variants with associated data",
        ),
        GenError::EmptyVariantList => s.append(") expects at least one variant in enum"),
    }
    proof {
        assert(s@ =~= diagnostic_text(macro_name@, *err));
    }
    s
}

/// The variant list of an enum declaration (arbitrary for a non-enum).
pub open spec fn decl_variants(decl: TypeDecl) -> Seq<VariantDecl> {
    match decl {
        TypeDecl::Enum { name, variants } => variants@,
        TypeDecl::NotEnum => Seq::empty(),
    }
}

/// The identifier of the declared type (arbitrary for a non-enum).
pub open spec fn decl_name(decl: TypeDecl) -> Seq<char> {
    match decl {
        TypeDecl::Enum { name, variants } => name@,
        TypeDecl::NotEnum => Seq::empty(),
    }
}

/// What the collector returns on a given declaration: the type's identifier
/// with the ordered variant identifiers, or the error that rejects it.
pub open spec fn collect_spec(decl: TypeDecl, require_nonempty: bool) -> Result<
    (Seq<char>, Seq<Seq<char>>),
    GenError,
> {
    if decl is NotEnum {
        Err(GenError::NotAnEnum)
    } else if !all_unit(decl_variants(decl)) {
        Err(GenError::UnsupportedVariantShape)
    } else if require_nonempty && decl_variants(decl).len() == 0 {
        Err(GenError::EmptyVariantList)
    } else {
        Ok((decl_name(decl), decl_variant_names(decl_variants(decl))))
    }
}

/// Input collector: the declared type's identifier and its ordered variant
/// identifiers. Rejects a declaration that is not an enum, a variant that
/// carries data, and (when `require_nonempty` is set) an enum with no
/// variants.
pub fn collect_variants(decl: &TypeDecl, require_nonempty: bool) -> (r: Result<
    (String, Vec<String>),
    GenError,
>)
    ensures
        match r {
            Ok(p) => collect_spec(*decl, require_nonempty) == Ok::<_, GenError>(
                (p.0@, name_views(p.1@)),
            ),
            Err(e) => collect_spec(*decl, require_nonempty) == Err::<(Seq<char>, Seq<Seq<char>>), _>(
                e,
            ),
        },
{
    match decl {
        TypeDecl::NotEnum => Err(GenError::NotAnEnum),
        TypeDecl::Enum { name, variants } => {
            let n = variants.len();
            let mut names: Vec<String> = Vec::new();
            let mut i: usize = 0;
            while i < n
                invariant
                    i <= n,
                    n == variants@.len(),
                    *decl matches TypeDecl::Enum { name: dn, variants: dv } && dv@ == variants@
                        && dn@ == name@,
                    names@.len() == i,
                    forall|j: int| 0 <= j < i ==> !variants@[j].has_data,
                    forall|j: int| 0 <= j < i ==> #[trigger] names@[j]@ == variants@[j].name@,
                decreases n - i,
            {
                if variants[i].has_data {
                    proof {
                        assert(!all_unit(variants@));
                    }
                    return Err(GenError::UnsupportedVariantShape);
                }
                names.push(variants[i].name.clone());
                i += 1;
            }
            if require_nonempty && n == 0 {
                return Err(GenError::EmptyVariantList);
            }
            proof {
                assert(all_unit(variants@));
                assert(name_views(names@) =~= decl_variant_names(variants@));
            }
            Ok((name.clone(), names))
        },
    }
}

} // verus!
