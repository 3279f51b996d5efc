//! The list of plots that the engine holds, as the front end shows it.

use vstd::prelude::*;

verus! {

/// One plot of the engine: its name, and whether it is the current one.
#[derive(Debug, Clone, PartialEq, Eq)]
pub struct Plot {
    name: String,
    is_current: bool,
}

impl View for Plot {
    type V = (Seq<char>, bool);

    closed spec fn view(&self) -> (Seq<char>, bool) {
        (self.name@, self.is_current)
    }
}

impl Plot {
    /// The plot `name`.
    pub fn new(name: &str, is_current: bool) -> (plot: Plot)
        ensures
            plot@ == (name@, is_current),
    {
        Plot { name: name.to_owned(), is_current }
    }

    /// The name of the plot.
    pub fn name(&self) -> (name: String)
        ensures
            name@ == self@.0,
    {
        self.name.clone()
    }

    /// Whether the plot is the current one.
    pub fn is_current(&self) -> (is_current: bool)
        ensures
            is_current == self@.1,
    {
        self.is_current
    }
}

/// What a list tells those who watch it after it has changed: from
/// `position` on, `removed` items are gone and `added` items have come.
#[derive(Debug, Clone, Copy, PartialEq, Eq, Structural)]
pub struct ItemsChanged {
    pub position: usize,
    pub removed: usize,
    pub added: usize,
}

/// The plots named `names`, in that order, each marked current exactly when
/// its name is `current`.
pub open spec fn plot_list(names: Seq<Seq<char>>, current: Seq<char>) -> Seq<(Seq<char>, bool)> {
    Seq::new(names.len(), |i: int| (names[i], names[i] == current))
}

/// The list of all plots of the engine.
#[derive(Debug, Clone, PartialEq, Eq)]
pub struct Plots {
    inner: Vec<Plot>,
}

impl View for Plots {
    type V = Seq<(Seq<char>, bool)>;

    closed spec fn view(&self) -> Seq<(Seq<char>, bool)> {
        Seq::new(self.inner@.len(), |i: int| self.inner@[i]@)
    }
}

impl Plots {
    /// An empty list.
    pub fn new() -> (plots: Plots)
        ensures
            plots@ == Seq::<(Seq<char>, bool)>::empty(),
    {
        let plots = Plots { inner: Vec::new() };
        assert(plots@ =~= Seq::<(Seq<char>, bool)>::empty());
        plots
    }

    /// Replaces the list by the plots that the engine has named, and says
    /// what to tell those who watch the list: everything that was there is
    /// gone, and all of the new plots have come.
    pub fn update(&mut self, current_plot_name: &str, all_plot_names: &Vec<String>) -> (changed:
        ItemsChanged)
        ensures
            final(self)@ == plot_list(all_plot_names.deep_view(), current_plot_name@),
            changed == (ItemsChanged {
                position: 0,
                removed: old(self)@.len() as usize,
                added: all_plot_names@.len() as usize,
            }),
    {
        let removed = self.inner.len();
        let current = current_plot_name.to_owned();
        let mut plots: Vec<Plot> = Vec::new();
        let mut i: usize = 0;
        while i < all_plot_names.len()
            invariant
                i <= all_plot_names@.len(),
                plots@.len() == i,
                current@ == current_plot_name@,
                forall|j: int|
                    0 <= j < i ==> (#[trigger] plots@[j])@ == (
                        all_plot_names@[j]@,
                        all_plot_names@[j]@ == current_plot_name@,
                    ),
            decreases all_plot_names@.len() - i,
        {
            let is_current = all_plot_names[i] == current;
            plots.push(Plot::new(all_plot_names[i].as_str(), is_current));
            i += 1;
        }
        self.inner = plots;
        assert(self@ =~= plot_list(all_plot_names.deep_view(), current_plot_name@));
        ItemsChanged { position: 0, removed, added: self.inner.len() }
    }

    /// The number of plots in the list.
    pub fn n_items(&self) -> (count: usize)
        ensures
            count == self@.len(),
    {
        self.inner.len()
    }

    /// The plot at `position`, if there is one.
    pub fn item(&self, position: usize) -> (plot: Option<&Plot>)
        ensures
            match plot {
                Some(found) => position < self@.len() && found@ == self@[position as int],
                None => position >= self@.len(),
            },
    {
        if position < self.inner.len() {
            Some(&self.inner[position])
        } else {
            None
        }
    }
}

} // verus!
