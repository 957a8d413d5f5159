//! The identity of a work at an outside catalogue.

use vstd::prelude::*;

verus! {

/// What a `ProviderRef` stands for: the catalogue's name and the work's
/// identifier there, as texts.
pub struct ProviderRefView {
    pub source: Seq<char>,
    pub id: Seq<char>,
}

/// A reference to a work at an outside catalogue. Two works are the same
/// outside entity exactly if source and identifier both agree.
#[derive(Debug, PartialEq)]
pub struct ProviderRef {
    /// The catalogue, such as "tmdb" or "rawg".
    pub provider_source: String,
    /// The work's identifier within that catalogue.
    pub provider_id: String,
}

impl View for ProviderRef {
    type V = ProviderRefView;

    open spec fn view(&self) -> ProviderRefView {
        ProviderRefView { source: self.provider_source@, id: self.provider_id@ }
    }
}

impl DeepView for ProviderRef {
    type V = ProviderRefView;

    open spec fn deep_view(&self) -> ProviderRefView {
        self@
    }
}

impl Clone for ProviderRef {
    fn clone(&self) -> (r: Self)
        ensures
            r@ == self@,
    {
        ProviderRef {
            provider_source: self.provider_source.clone(),
            provider_id: self.provider_id.clone(),
        }
    }
}

impl ProviderRef {
    /// A reference to the work `provider_id` of the catalogue `provider_source`.
    pub fn new(provider_source: &str, provider_id: &str) -> (r: Self)
        ensures
            r@ == (ProviderRefView { source: provider_source@, id: provider_id@ }),
    {
        ProviderRef {
            provider_source: provider_source.to_owned(),
            provider_id: provider_id.to_owned(),
        }
    }

    /// Whether both references name the same work of the same catalogue.
    pub fn matches(&self, other: &ProviderRef) -> (b: bool)
        ensures
            b == (self@ == other@),
    {
        self.provider_source == other.provider_source && self.provider_id == other.provider_id
    }
}

/// What an optional reference stands for.
pub open spec fn opt_ref_view(r: Option<ProviderRef>) -> Option<ProviderRefView> {
    match r {
        Some(p) => Some(p@),
        None => None,
    }
}

/// A copy of an optional reference.
pub fn clone_opt_ref(r: &Option<ProviderRef>) -> (c: Option<ProviderRef>)
    ensures
        opt_ref_view(c) == opt_ref_view(*r),
{
    match r {
        Some(p) => Some(p.clone()),
        None => None,
    }
}

} // verus!
