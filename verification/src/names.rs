//! The canonical identity of a type, for the registry's deduplication.

use vstd::prelude::*;
use vstd::string::StringExecFns;

use crate::schema::{lemma_strings_view, strings_view};

verus! {

/// What a type's declaration offers the name resolver: its bare name, the
/// path of the module that declares it, and its generic arguments in
/// declaration order (type arguments recursively, constant arguments as
/// their string renderings).
#[derive(Debug, PartialEq, Eq)]
pub struct TypeIdent {
    pub short: String,
    pub module: String,
    pub type_args: Vec<TypeIdent>,
    pub const_args: Vec<String>,
}

/// The identity of a type: its unqualified name, its globally unique
/// qualified name, and the identities of its generic arguments.
#[derive(Debug, PartialEq, Eq)]
pub struct Names {
    pub short: String,
    pub long: String,
    pub type_params: Vec<Names>,
    pub const_params: Vec<String>,
}

/// The mathematical value of a [`TypeIdent`].
pub struct TypeIdentV {
    pub short: Seq<char>,
    pub module: Seq<char>,
    pub type_args: Seq<TypeIdentV>,
    pub const_args: Seq<Seq<char>>,
}

/// The mathematical value of a [`Names`].
pub struct NamesV {
    pub short: Seq<char>,
    pub long: Seq<char>,
    pub type_params: Seq<NamesV>,
    pub const_params: Seq<Seq<char>>,
}

pub open spec fn ident_view(t: TypeIdent) -> TypeIdentV
    decreases t,
{
    TypeIdentV {
        short: t.short@,
        module: t.module@,
        type_args: idents_view(t.type_args@),
        const_args: strings_view(t.const_args@),
    }
}

/// The view of a sequence of type identities, element by element.
pub open spec fn idents_view(idents: Seq<TypeIdent>) -> Seq<TypeIdentV>
    decreases idents,
{
    if idents.len() == 0 {
        Seq::empty()
    } else {
        seq![ident_view(idents[0])] + idents_view(idents.drop_first())
    }
}

pub open spec fn names_view(n: Names) -> NamesV
    decreases n,
{
    NamesV {
        short: n.short@,
        long: n.long@,
        type_params: names_seq_view(n.type_params@),
        const_params: strings_view(n.const_params@),
    }
}

/// The view of a sequence of identities, element by element.
pub open spec fn names_seq_view(names: Seq<Names>) -> Seq<NamesV>
    decreases names,
{
    if names.len() == 0 {
        Seq::empty()
    } else {
        seq![names_view(names[0])] + names_seq_view(names.drop_first())
    }
}

impl View for TypeIdent {
    type V = TypeIdentV;

    open spec fn view(&self) -> TypeIdentV {
        ident_view(*self)
    }
}

impl View for Names {
    type V = NamesV;

    open spec fn view(&self) -> NamesV {
        names_view(*self)
    }
}

pub proof fn lemma_idents_view(idents: Seq<TypeIdent>)
    ensures
        idents_view(idents).len() == idents.len(),
        forall|i: int| 0 <= i < idents.len() ==> #[trigger] idents_view(idents)[i] == ident_view(
            idents[i],
        ),
    decreases idents.len(),
{
    if idents.len() > 0 {
        lemma_idents_view(idents.drop_first());
        assert forall|i: int| 0 <= i < idents.len() implies #[trigger] idents_view(idents)[i]
            == ident_view(idents[i]) by {
            if i > 0 {
                assert(idents.drop_first()[i - 1] == idents[i]);
            }
        }
    }
}

pub proof fn lemma_names_seq_view(names: Seq<Names>)
    ensures
        names_seq_view(names).len() == names.len(),
        forall|i: int| 0 <= i < names.len() ==> #[trigger] names_seq_view(names)[i] == names_view(
            names[i],
        ),
    decreases names.len(),
{
    if names.len() > 0 {
        lemma_names_seq_view(names.drop_first());
        assert forall|i: int| 0 <= i < names.len() implies #[trigger] names_seq_view(names)[i]
            == names_view(names[i]) by {
            if i > 0 {
                assert(names.drop_first()[i - 1] == names[i]);
            }
        }
    }
}

/// The qualified name of a type: the declaring module's path, `::`, and the
/// bare name.
pub open spec fn long_of(module: Seq<char>, short: Seq<char>) -> Seq<char> {
    module + "::"@ + short
}

/// The identity computed for a type: its bare name, its qualified name, and
/// recursively the identities of its generic arguments.
pub open spec fn spec_names(t: TypeIdentV) -> NamesV
    decreases t,
{
    NamesV {
        short: t.short,
        long: long_of(t.module, t.short),
        type_params: spec_names_args(t.type_args),
        const_params: t.const_args,
    }
}

pub open spec fn spec_names_args(args: Seq<TypeIdentV>) -> Seq<NamesV>
    decreases args,
{
    if args.len() == 0 {
        Seq::empty()
    } else {
        seq![spec_names(args[0])] + spec_names_args(args.drop_first())
    }
}

pub proof fn lemma_spec_names_args(args: Seq<TypeIdentV>)
    ensures
        spec_names_args(args).len() == args.len(),
        forall|i: int| 0 <= i < args.len() ==> #[trigger] spec_names_args(args)[i] == spec_names(
            args[i],
        ),
    decreases args.len(),
{
    if args.len() > 0 {
        lemma_spec_names_args(args.drop_first());
        assert forall|i: int| 0 <= i < args.len() implies #[trigger] spec_names_args(args)[i]
            == spec_names(args[i]) by {
            if i > 0 {
                assert(args.drop_first()[i - 1] == args[i]);
            }
        }
    }
}

/// Computes a type's identity from its declaration.
///
/// The identity is a pure value: it is computed fresh on every call, even
/// for types that the registry will inline rather than reference.
pub fn resolve_names(t: &TypeIdent) -> (names: Names)
    ensures
        names@ == spec_names(t@),
    decreases *t,
{
    let mut type_params: Vec<Names> = Vec::new();
    let mut i: usize = 0;
    while i < t.type_args.len()
        invariant
            i <= t.type_args@.len(),
            type_params@.len() == i,
            forall|j: int| 0 <= j < i ==> names_view(#[trigger] type_params@[j]) == spec_names(
                ident_view(t.type_args@[j]),
            ),
        decreases t.type_args@.len() - i,
    {
        proof {
            assert(decreases_to!(*t => t.type_args));
            assert(decreases_to!(t.type_args => t.type_args@[i as int]));
        }
        let n = resolve_names(&t.type_args[i]);
        type_params.push(n);
        i += 1;
    }
    let mut const_params: Vec<String> = Vec::new();
    let mut j: usize = 0;
    while j < t.const_args.len()
        invariant
            j <= t.const_args@.len(),
            const_params@.len() == j,
            forall|x: int| 0 <= x < j ==> (#[trigger] const_params@[x])@ == t.const_args@[x]@,
        decreases t.const_args@.len() - j,
    {
        const_params.push(t.const_args[j].clone());
        j += 1;
    }
    let mut long = t.module.clone();
    long.append("::");
    long.append(t.short.as_str());
    let names = Names { short: t.short.clone(), long, type_params, const_params };
    proof {
        lemma_names_seq_view(names.type_params@);
        lemma_idents_view(t.type_args@);
        lemma_spec_names_args(idents_view(t.type_args@));
        assert(names_seq_view(names.type_params@) =~= spec_names_args(idents_view(t.type_args@)));
        lemma_strings_view(names.const_params@);
        lemma_strings_view(t.const_args@);
        assert(strings_view(names.const_params@) =~= strings_view(t.const_args@));
        assert(names.long@ =~= long_of(t.module@, t.short@));
    }
    names
}

/// Whether two identities name the same referenceable schema: their
/// qualified names match and their generic arguments match, recursively.
/// The unqualified name plays no part.
pub open spec fn spec_same_identity(a: NamesV, b: NamesV) -> bool
    decreases a,
{
    &&& a.long == b.long
    &&& a.const_params == b.const_params
    &&& a.type_params.len() == b.type_params.len()
    &&& forall|i: int|
        0 <= i < a.type_params.len() ==> spec_same_identity(
            #[trigger] a.type_params[i],
            b.type_params[i],
        )
}

/// Decides whether two identities name the same referenceable schema, so
/// that a registry may deduplicate under them.
pub fn same_identity(a: &Names, b: &Names) -> (same: bool)
    ensures
        same == spec_same_identity(a@, b@),
    decreases *a,
{
    proof {
        lemma_names_seq_view(a.type_params@);
        lemma_names_seq_view(b.type_params@);
        lemma_strings_view(a.const_params@);
        lemma_strings_view(b.const_params@);
    }
    if !(a.long == b.long) {
        return false;
    }
    if a.const_params.len() != b.const_params.len() {
        return false;
    }
    let mut j: usize = 0;
    while j < a.const_params.len()
        invariant
            j <= a.const_params@.len(),
            a.const_params@.len() == b.const_params@.len(),
            forall|x: int| 0 <= x < j ==> (#[trigger] a.const_params@[x])@ == b.const_params@[x]@,
        decreases a.const_params@.len() - j,
    {
        if !(a.const_params[j] == b.const_params[j]) {
            proof {
                lemma_strings_view(a.const_params@);
                lemma_strings_view(b.const_params@);
                assert(strings_view(a.const_params@)[j as int] != strings_view(
                    b.const_params@,
                )[j as int]);
            }
            return false;
        }
        j += 1;
    }
    proof {
        lemma_strings_view(a.const_params@);
        lemma_strings_view(b.const_params@);
        assert(strings_view(a.const_params@) =~= strings_view(b.const_params@));
    }
    if a.type_params.len() != b.type_params.len() {
        return false;
    }
    let mut i: usize = 0;
    while i < a.type_params.len()
        invariant
            i <= a.type_params@.len(),
            a.type_params@.len() == b.type_params@.len(),
            forall|x: int| 0 <= x < i ==> spec_same_identity(
                names_view(#[trigger] a.type_params@[x]),
                names_view(b.type_params@[x]),
            ),
        decreases a.type_params@.len() - i,
    {
        proof {
            assert(decreases_to!(*a => a.type_params));
            assert(decreases_to!(a.type_params => a.type_params@[i as int]));
        }
        if !same_identity(&a.type_params[i], &b.type_params[i]) {
            proof {
                lemma_names_seq_view(a.type_params@);
                lemma_names_seq_view(b.type_params@);
                assert(a@.type_params[i as int] == names_view(a.type_params@[i as int]));
                assert(!spec_same_identity(a@.type_params[i as int], b@.type_params[i as int]));
            }
            return false;
        }
        i += 1;
    }
    proof {
        lemma_names_seq_view(a.type_params@);
        lemma_names_seq_view(b.type_params@);
    }
    true
}

} // verus!
