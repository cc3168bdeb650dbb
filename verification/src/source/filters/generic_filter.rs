//! A filter given by its name, an optional label and string parameters.
use vstd::prelude::*;
use vstd::std_specs::cmp::PartialEqSpecImpl;
use super::parameters::FilterParameters;

verus! {

/// What a generic filter holds, as plain values.
pub struct GenericFilterView {
    pub name: Seq<char>,
    pub label: Option<Seq<char>>,
    pub parameters: Map<Seq<char>, Seq<char>>,
}

/// The characters of a label, if there is one.
pub open spec fn label_view(label: Option<String>) -> Option<Seq<char>> {
    match label {
        Some(l) => Some(l@),
        None => None,
    }
}

/// A filter of the filter graph: the filter's name, an optional label that
/// names this instance in the graph, and its parameters.
#[derive(Debug)]
pub struct GenericFilter {
    pub name: String,
    pub label: Option<String>,
    pub parameters: FilterParameters,
}

impl View for GenericFilter {
    type V = GenericFilterView;

    open spec fn view(&self) -> GenericFilterView {
        GenericFilterView {
            name: self.name@,
            label: label_view(self.label),
            parameters: self.parameters@,
        }
    }
}

impl GenericFilter {
    /// A filter named `name`, labelled `label`, with `parameters`.
    pub fn new(name: String, label: Option<String>, parameters: FilterParameters) -> (f: GenericFilter)
        ensures
            f.name == name,
            f.label == label,
            f.parameters@ == parameters@,
    {
        GenericFilter { name, label, parameters }
    }
}

impl PartialEq for GenericFilter {
    fn eq(&self, other: &GenericFilter) -> (r: bool) {
        let same_label = match (&self.label, &other.label) {
            (Some(a), Some(b)) => *a == *b,
            (None, None) => true,
            _ => false,
        };
        let r = self.name == other.name && same_label && self.parameters == other.parameters;
        proof {
            if r {
                assert(label_view(self.label) == label_view(other.label));
            }
        }
        r
    }
}

impl PartialEqSpecImpl for GenericFilter {
    open spec fn obeys_eq_spec() -> bool {
        true
    }

    open spec fn eq_spec(&self, other: &GenericFilter) -> bool {
        self@ == other@
    }
}

impl Clone for GenericFilter {
    fn clone(&self) -> (r: GenericFilter)
        ensures
            r@ == self@,
    {
        let label = match &self.label {
            Some(l) => Some(l.clone()),
            None => None,
        };
        GenericFilter { name: self.name.clone(), label, parameters: self.parameters.clone() }
    }
}

} // verus!
