use vstd::prelude::*;

verus! {

/// One declared generic parameter of a data item; a lifetime carries its
/// name without the leading apostrophe.
#[derive(Clone, Debug)]
pub enum GenericParamKind {
    Lifetime(String),
    Type,
    Const,
}

/// One parameter of the extended generics: a declared parameter, by its
/// position, or the extended store lifetime.
#[derive(Clone, Copy, Debug, PartialEq, Eq, Structural)]
pub enum ExtParam {
    Declared(usize),
    Ext,
}

/// Why a data item has no scope to borrow for.
#[derive(Clone, Copy, Debug, PartialEq, Eq, Structural)]
pub enum LifetimeError {
    /// The item declares no generic parameter.
    NoParams,
    /// The first generic parameter is not a lifetime.
    FirstNotLifetime,
}

/// The scopes of a data item: its own lifetime, the extended store lifetime
/// that outlives it, and the item's generics with the extended lifetime added.
#[derive(Clone, Debug)]
pub struct Lifetimes {
    pub item_lifetime: String,
    pub ext_lifetime: String,
    pub ext_generics: Vec<ExtParam>,
}

/// The number of lifetimes that open the parameter list.
pub open spec fn lifetime_group_len(params: Seq<GenericParamKind>) -> nat
    decreases params.len(),
{
    if params.len() > 0 && params[0] is Lifetime {
        1 + lifetime_group_len(params.drop_first())
    } else {
        0
    }
}

/// The declared parameters with the extended lifetime standing right after
/// the leading lifetimes.
pub open spec fn ext_params_of(params: Seq<GenericParamKind>) -> Seq<ExtParam> {
    let g = lifetime_group_len(params) as int;
    Seq::new(
        params.len() + 1,
        |j: int|
            if j < g {
                ExtParam::Declared(j as usize)
            } else if j == g {
                ExtParam::Ext
            } else {
                ExtParam::Declared((j - 1) as usize)
            },
    )
}

/// The name of the extended store lifetime of an item lifetime.
pub open spec fn ext_lifetime_of(item: Seq<char>) -> Seq<char> {
    "b"@ + item
}

pub open spec fn lifetimes_error(params: Seq<GenericParamKind>) -> Option<LifetimeError> {
    if params.len() == 0 {
        Some(LifetimeError::NoParams)
    } else if !(params[0] is Lifetime) {
        Some(LifetimeError::FirstNotLifetime)
    } else {
        None
    }
}

proof fn lemma_group_len(params: Seq<GenericParamKind>, g: int)
    requires
        0 <= g <= params.len(),
        forall|j: int| 0 <= j < g ==> #[trigger] params[j] is Lifetime,
        g < params.len() ==> !(params[g] is Lifetime),
    ensures
        lifetime_group_len(params) == g,
    decreases g,
{
    if g > 0 {
        let rest = params.drop_first();
        assert forall|j: int| 0 <= j < g - 1 implies #[trigger] rest[j] is Lifetime by {
            assert(params[j + 1] is Lifetime);
        }
        if g - 1 < rest.len() {
            assert(rest[g - 1] == params[g]);
        }
        lemma_group_len(rest, g - 1);
    }
}

/// Relies on String::push_str: appends the characters of `t` to `s`.
#[verifier::external_body]
fn push_str(s: &mut String, t: &str)
    ensures
        final(s)@ == old(s)@ + t@,
{
    s.push_str(t)
}

/// Finds the item lifetime (the first generic parameter, which must be a
/// lifetime) and derives the extended store lifetime from it.
pub fn get_lifetimes(params: &Vec<GenericParamKind>) -> (r: Result<Lifetimes, LifetimeError>)
    ensures
        match r {
            Ok(l) => {
                &&& lifetimes_error(params@) is None
                &&& params@[0] == GenericParamKind::Lifetime(l.item_lifetime)
                &&& l.ext_lifetime@ == ext_lifetime_of(l.item_lifetime@)
                &&& l.ext_generics@ == ext_params_of(params@)
            },
            Err(e) => lifetimes_error(params@) == Some(e),
        },
{
    if params.len() == 0 {
        return Err(LifetimeError::NoParams);
    }
    let item_lifetime = match &params[0] {
        GenericParamKind::Lifetime(name) => name.clone(),
        _ => {
            return Err(LifetimeError::FirstNotLifetime);
        },
    };
    let mut ext_lifetime = "b".to_owned();
    push_str(&mut ext_lifetime, item_lifetime.as_str());

    let mut g: usize = 0;
    while g < params.len() && matches!(params[g], GenericParamKind::Lifetime(_))
        invariant
            g <= params@.len(),
            forall|j: int| 0 <= j < g ==> #[trigger] params@[j] is Lifetime,
        decreases params@.len() - g,
    {
        g = g + 1;
    }
    proof {
        lemma_group_len(params@, g as int);
    }
    let ghost target = ext_params_of(params@);
    let mut ext_generics: Vec<ExtParam> = Vec::new();
    let mut i: usize = 0;
    while i < g
        invariant
            i <= g <= params@.len(),
            g == lifetime_group_len(params@),
            target == ext_params_of(params@),
            ext_generics@ == target.take(i as int),
        decreases g - i,
    {
        ext_generics.push(ExtParam::Declared(i));
        i = i + 1;
        assert(ext_generics@ =~= target.take(i as int));
    }
    ext_generics.push(ExtParam::Ext);
    assert(ext_generics@ =~= target.take(g as int + 1));
    while i < params.len()
        invariant
            g <= i <= params@.len(),
            g == lifetime_group_len(params@),
            target == ext_params_of(params@),
            ext_generics@ == target.take(i as int + 1),
        decreases params@.len() - i,
    {
        ext_generics.push(ExtParam::Declared(i));
        i = i + 1;
        assert(ext_generics@ =~= target.take(i as int + 1));
    }
    assert(ext_generics@ =~= target);
    Ok(Lifetimes { item_lifetime, ext_lifetime, ext_generics })
}

} // verus!
