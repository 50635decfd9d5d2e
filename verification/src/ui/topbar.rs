//! The top bar: the namespaces to choose from.

use vstd::prelude::*;

verus! {

/// The state of the top bar: the known namespaces, and whether they are the
/// answer to the last listing that was asked for.
pub struct Topbar {
    namespaces: Vec<String>,
    namespaces_loaded: bool,
}

/// A [`Topbar`] as a mathematical value.
pub ghost struct TopbarView {
    pub namespaces: Seq<Seq<char>>,
    pub namespaces_loaded: bool,
}

impl View for Topbar {
    type V = TopbarView;

    closed spec fn view(&self) -> TopbarView {
        TopbarView {
            namespaces: self.namespaces.deep_view(),
            namespaces_loaded: self.namespaces_loaded,
        }
    }
}

impl Topbar {
    /// A top bar that shows the given names while the first listing is awaited.
    pub fn new(namespaces: Vec<String>) -> (topbar: Topbar)
        ensures
            topbar@ == (TopbarView {
                namespaces: namespaces.deep_view(),
                namespaces_loaded: false,
            }),
    {
        Topbar { namespaces, namespaces_loaded: false }
    }

    /// The namespaces to choose from.
    pub fn namespaces(&self) -> (namespaces: &Vec<String>)
        ensures
            namespaces.deep_view() == self@.namespaces,
    {
        &self.namespaces
    }

    /// Whether the listing that was asked for has been answered.
    pub fn namespaces_loaded(&self) -> (loaded: bool)
        ensures
            loaded == self@.namespaces_loaded,
    {
        self.namespaces_loaded
    }

    /// Takes in the answer to a listing: these are the namespaces now.
    pub fn receive_namespaces(&mut self, namespaces: Vec<String>)
        ensures
            final(self)@ == (TopbarView {
                namespaces: namespaces.deep_view(),
                namespaces_loaded: true,
            }),
    {
        self.namespaces_loaded = true;
        self.namespaces = namespaces;
    }

    /// Notes that a new listing was asked for: the names stay until it is
    /// answered, and no namespace is selected.
    pub fn refresh(&mut self, selected_namespace: &mut String)
        ensures
            final(self)@ == (TopbarView { namespaces_loaded: false, ..old(self)@ }),
            final(selected_namespace)@ == Seq::<char>::empty(),
    {
        self.namespaces_loaded = false;
        *selected_namespace = String::new();
    }
}

} // verus!
