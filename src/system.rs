use vstd::prelude::*;

use crate::field::{extract_attr, get_attr, has_attr, strip_attr};

verus! {

/// One item of a processing unit's implementation block: a method with its
/// name and the names (path text) of its attributes, or anything else.
#[derive(Clone, Debug)]
pub enum ImplItemDecl {
    Method { ident: String, attrs: Vec<String> },
    Other,
}

/// How a processing unit meets the store's contract: its data is the named
/// system-data type, and each run forwards to the method at `run_index`.
#[derive(Clone, Debug)]
pub struct RoutineBinding {
    pub system_data: String,
    pub run_method: String,
    pub run_index: usize,
}

/// Why a processing unit cannot be bound.
#[derive(Clone, Copy, Debug, PartialEq, Eq, Structural)]
pub enum SystemError {
    /// No method carries the entry-point tag.
    NoRunMethod,
    /// More than one method carries the entry-point tag.
    SeveralRunMethods,
}

/// The item is a method tagged as the entry point.
pub open spec fn is_run(item: ImplItemDecl) -> bool {
    match item {
        ImplItemDecl::Method { attrs, .. } => has_attr(attrs@, "run"@),
        ImplItemDecl::Other => false,
    }
}

/// The item is the only tagged method among `items`.
pub open spec fn only_run(items: Seq<ImplItemDecl>, i: int) -> bool {
    &&& 0 <= i < items.len()
    &&& is_run(items[i])
    &&& forall|j: int| 0 <= j < items.len() && j != i ==> !is_run(#[trigger] items[j])
}

pub open spec fn several_runs(items: Seq<ImplItemDecl>) -> bool {
    exists|i: int, j: int|
        0 <= i < j < items.len() && is_run(#[trigger] items[i]) && is_run(#[trigger] items[j])
}

pub open spec fn no_run(items: Seq<ImplItemDecl>) -> bool {
    forall|j: int| 0 <= j < items.len() ==> !is_run(#[trigger] items[j])
}

/// Whether an item is a method tagged as the entry point.
fn run_tagged(item: &ImplItemDecl) -> (r: bool)
    ensures
        r == is_run(*item),
{
    match item {
        ImplItemDecl::Method { attrs, .. } => get_attr(attrs, "run").is_some(),
        ImplItemDecl::Other => false,
    }
}

/// Binds a processing unit to the system-data type `system_data`: finds the
/// one method tagged as the entry point and takes the tag off it. The items
/// are left as they were when there is no such method or several.
pub fn expand_system(system_data: String, items: &mut Vec<ImplItemDecl>) -> (r: Result<
    RoutineBinding,
    SystemError,
>)
    ensures
        match r {
            Ok(b) => {
                &&& only_run(old(items)@, b.run_index as int)
                &&& b.system_data == system_data
                &&& final(items)@.len() == old(items)@.len()
                &&& forall|j: int|
                    0 <= j < old(items)@.len() && j != b.run_index ==> #[trigger] final(items)@[j]
                        == old(items)@[j]
                &&& match (old(items)@[b.run_index as int], final(items)@[b.run_index as int]) {
                    (
                        ImplItemDecl::Method { ident: i0, attrs: a0 },
                        ImplItemDecl::Method { ident: i1, attrs: a1 },
                    ) => i1 == i0 && b.run_method == i0 && a1@ == strip_attr(a0@, "run"@),
                    _ => false,
                }
            },
            Err(SystemError::NoRunMethod) => no_run(old(items)@) && final(items)@ == old(items)@,
            Err(SystemError::SeveralRunMethods) => several_runs(old(items)@) && final(items)@
                == old(items)@,
        },
{
    let mut found: Option<usize> = None;
    let mut i: usize = 0;
    while i < items.len()
        invariant
            i <= items@.len(),
            items@ == old(items)@,
            match found {
                Some(k) => k < i && is_run(items@[k as int]) && forall|j: int|
                    0 <= j < i && j != k ==> !is_run(#[trigger] items@[j]),
                None => forall|j: int| 0 <= j < i ==> !is_run(#[trigger] items@[j]),
            },
        decreases items@.len() - i,
    {
        if run_tagged(&items[i]) {
            if let Some(k) = found {
                assert(is_run(items@[k as int]) && is_run(items@[i as int]));
                return Err(SystemError::SeveralRunMethods);
            }
            found = Some(i);
        }
        i = i + 1;
    }
    let k = match found {
        Some(k) => k,
        None => {
            return Err(SystemError::NoRunMethod);
        },
    };
    let item = items.remove(k);
    match item {
        ImplItemDecl::Method { ident, attrs } => {
            let mut attrs = attrs;
            let _ = extract_attr(&mut attrs, "run");
            let run_method = ident.clone();
            items.insert(k, ImplItemDecl::Method { ident, attrs });
            Ok(RoutineBinding { system_data, run_method, run_index: k })
        },
        ImplItemDecl::Other => {
            items.insert(k, ImplItemDecl::Other);
            Err(SystemError::NoRunMethod)
        },
    }
}

/// A processing unit is bound exactly when one method carries the
/// entry-point tag; with none or with several, binding fails.
pub proof fn law_one_entry_point(items: Seq<ImplItemDecl>)
    ensures
        no_run(items) || several_runs(items) || exists|i: int| only_run(items, i),
        !(no_run(items) && several_runs(items)),
        forall|i: int| only_run(items, i) ==> !no_run(items) && !several_runs(items),
{
    if !no_run(items) && !several_runs(items) {
        let i = choose|i: int| 0 <= i < items.len() && is_run(#[trigger] items[i]);
        assert forall|j: int| 0 <= j < items.len() && j != i implies !is_run(#[trigger] items[j]) by {
            if is_run(items[j]) {
                if i < j {
                    assert(is_run(items[i]) && is_run(items[j]));
                } else {
                    assert(is_run(items[j]) && is_run(items[i]));
                }
            }
        }
        assert(only_run(items, i));
    }
    assert forall|i: int| only_run(items, i) implies !no_run(items) && !several_runs(items) by {
        assert(is_run(items[i]));
        if several_runs(items) {
            let (a, b) = choose|a: int, b: int|
                0 <= a < b < items.len() && is_run(#[trigger] items[a]) && is_run(#[trigger] items[b]);
            assert(a == i || !is_run(items[a]));
            assert(b == i || !is_run(items[b]));
        }
    }
}

} // verus!
