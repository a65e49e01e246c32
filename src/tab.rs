use vstd::prelude::*;

verus! {

/// The events of a [`TabButton`].
#[derive(Clone, Copy, PartialEq, Eq, Structural, Debug, Hash)]
pub enum TabEvent {
    /// The tab was selected.
    Selected,
}

/// A tab button: a label, whether it is selected, and what to report when it
/// is selected.
pub struct TabButton<F> {
    label: String,
    selected: bool,
    on_select: Option<F>,
}

/// Creates an unselected [`TabButton`] with no selection callback.
pub fn tab_button<F>(label: &str) -> (r: TabButton<F>)
    ensures
        r.label_view() == label@,
        !r.selected_view(),
        r.callback() is None,
{
    TabButton { label: label.to_string(), selected: false, on_select: None }
}

impl<F> TabButton<F> {
    /// The label.
    pub closed spec fn label_view(&self) -> Seq<char> {
        self.label@
    }

    /// Whether the tab is selected.
    pub closed spec fn selected_view(&self) -> bool {
        self.selected
    }

    /// The selection callback.
    pub closed spec fn callback(&self) -> Option<F> {
        self.on_select
    }

    /// Sets whether or not the tab is selected.
    pub fn selected(self, selected: bool) -> (r: Self)
        ensures
            r.label_view() == self.label_view(),
            r.selected_view() == selected,
            r.callback() == self.callback(),
    {
        TabButton { selected, ..self }
    }

    /// Sets the function to be called when the tab is selected.
    pub fn on_select<G>(self, f: G) -> (r: TabButton<G>)
        ensures
            r.label_view() == self.label_view(),
            r.selected_view() == self.selected_view(),
            r.callback() == Some(f),
    {
        TabButton { label: self.label, selected: self.selected, on_select: Some(f) }
    }

    /// Handles an event: a selection reports what the callback makes of it,
    /// if there is a callback.
    pub fn update<M>(&self, event: TabEvent) -> (r: Option<M>) where F: Fn() -> M
        requires
            self.callback() matches Some(f) ==> f.requires(()),
        ensures
            r is Some <==> self.callback() is Some,
            r matches Some(m) ==> self.callback().unwrap().ensures((), m),
    {
        match event {
            TabEvent::Selected => match &self.on_select {
                Some(f) => Some(f()),
                None => None,
            },
        }
    }
}

/// The events of a [`TabList`].
#[derive(Clone, Copy, PartialEq, Eq, Debug, Hash)]
pub enum TabListEvent<K> {
    /// A tab was selected.
    TabSelected(K),
}

/// A tab in a [`TabList`].
pub struct Tab<K> {
    /// The label.
    pub label: String,
    /// The identifier reported when the tab is selected.
    pub id: K,
    /// Whether the tab is selected.
    pub selected: bool,
}

impl<K> Tab<K> {
    /// Creates a tab.
    pub fn new(label: &str, id: K, selected: bool) -> (r: Self)
        ensures
            r.label@ == label@,
            r.id == id,
            r.selected == selected,
    {
        Tab { label: label.to_string(), id, selected }
    }
}

/// A row of tabs and what to report when one is selected.
pub struct TabList<K, F> {
    tabs: Vec<Tab<K>>,
    on_tab_selected: Option<F>,
}

/// Creates a [`TabList`] of the given tabs with no selection callback.
pub fn tab_list<K, F>(tabs: Vec<Tab<K>>) -> (r: TabList<K, F>)
    ensures
        r.tabs_view() == tabs@,
        r.callback() is None,
{
    TabList { tabs, on_tab_selected: None }
}

impl<K, F> TabList<K, F> {
    /// The tabs.
    pub closed spec fn tabs_view(&self) -> Seq<Tab<K>> {
        self.tabs@
    }

    /// The selection callback.
    pub closed spec fn callback(&self) -> Option<F> {
        self.on_tab_selected
    }

    /// The tabs.
    pub fn tabs(&self) -> (r: &Vec<Tab<K>>)
        ensures
            r@ == self.tabs_view(),
    {
        &self.tabs
    }

    /// Sets the function to be called with a tab's identifier when it is
    /// selected.
    pub fn on_selected<G>(self, f: G) -> (r: TabList<K, G>)
        ensures
            r.tabs_view() == self.tabs_view(),
            r.callback() == Some(f),
    {
        TabList { tabs: self.tabs, on_tab_selected: Some(f) }
    }

    /// Handles an event: a selection reports what the callback makes of the
    /// selected tab's identifier, if there is a callback.
    pub fn update<M>(&self, event: TabListEvent<K>) -> (r: Option<M>) where F: Fn(K) -> M
        requires
            self.callback() matches Some(f) ==> forall|k: K| f.requires((k,)),
        ensures
            r is Some <==> self.callback() is Some,
            r matches Some(m) ==> (event matches TabListEvent::TabSelected(k)
                && self.callback().unwrap().ensures((k,), m)),
    {
        match event {
            TabListEvent::TabSelected(id) => match &self.on_tab_selected {
                Some(f) => Some(f(id)),
                None => None,
            },
        }
    }
}

} // verus!
