use vstd::prelude::*;
use crate::events::WindowContext;

verus! {

/// The labels of the open UI surfaces, each once, in the order they opened.
pub struct WindowRouter {
    labels: Vec<String>,
}

pub open spec fn label_views(v: Seq<String>) -> Seq<Seq<char>> {
    v.map_values(|s: String| s@)
}

/// The labels an event with context `ctx` reaches when `open` are the open
/// surfaces: every one for no specific window, else the named one if it is
/// open.
pub open spec fn route(open: Seq<Seq<char>>, ctx: WindowContext) -> Seq<Seq<char>> {
    match ctx {
        WindowContext::NoWindow => open,
        WindowContext::Label { label } => if open.contains(label@) {
            seq![label@]
        } else {
            Seq::empty()
        },
    }
}

impl WindowRouter {
    pub closed spec fn surfaces(&self) -> Seq<Seq<char>> {
        label_views(self.labels@)
    }

    pub closed spec fn wf(&self) -> bool {
        self.surfaces().no_duplicates()
    }

    /// A router with no open surface.
    pub fn new() -> (r: Self)
        ensures
            r.wf(),
            r.surfaces() == Seq::<Seq<char>>::empty(),
    {
        let r = WindowRouter { labels: Vec::new() };
        assert(r.surfaces() =~= Seq::<Seq<char>>::empty());
        r
    }

    fn position(&self, label: &str) -> (r: Option<usize>)
        ensures
            r is None <==> !self.surfaces().contains(label@),
            r matches Some(i) ==> i < self.surfaces().len() && self.surfaces()[i as int] == label@,
    {
        let target = label.to_string();
        let mut i: usize = 0;
        while i < self.labels.len()
            invariant
                i <= self.labels@.len(),
                target@ == label@,
                forall|k: int| 0 <= k < i ==> self.labels@[k]@ != label@,
            decreases self.labels@.len() - i,
        {
            if self.labels[i] == target {
                assert(self.surfaces()[i as int] == label@);
                return Some(i);
            }
            i = i + 1;
        }
        proof {
            if self.surfaces().contains(label@) {
                let k = choose|k: int| 0 <= k < self.surfaces().len() && self.surfaces()[k] == label@;
                assert(self.labels@[k]@ == label@);
            }
        }
        None
    }

    /// Whether the surface `label` is open.
    pub fn is_open(&self, label: &str) -> (r: bool)
        ensures
            r == self.surfaces().contains(label@),
    {
        self.position(label).is_some()
    }

    /// Records that the surface `label` opened.
    pub fn open(&mut self, label: &str)
        requires
            old(self).wf(),
        ensures
            final(self).wf(),
            final(self).surfaces() == (if old(self).surfaces().contains(label@) {
                old(self).surfaces()
            } else {
                old(self).surfaces().push(label@)
            }),
    {
        if self.position(label).is_none() {
            self.labels.push(label.to_string());
            assert(self.surfaces() =~= old(self).surfaces().push(label@));
        }
    }

    /// Records that the surface `label` closed.
    pub fn close(&mut self, label: &str)
        requires
            old(self).wf(),
        ensures
            final(self).wf(),
            forall|x: Seq<char>|
                final(self).surfaces().contains(x) <==> old(self).surfaces().contains(x) && x
                    != label@,
    {
        if let Some(i) = self.position(label) {
            self.labels.remove(i);
            let ghost o = old(self).surfaces();
            assert(self.surfaces() =~= o.remove(i as int));
            assert forall|x: Seq<char>|
                self.surfaces().contains(x) <==> o.contains(x) && x != label@ by {
                if o.contains(x) && x != label@ {
                    let k = choose|k: int| 0 <= k < o.len() && o[k] == x;
                    assert(k != i);
                    if k < i {
                        assert(self.surfaces()[k] == x);
                    } else {
                        assert(self.surfaces()[k - 1] == x);
                    }
                }
                if self.surfaces().contains(x) {
                    let k = choose|k: int| 0 <= k < self.surfaces().len() && self.surfaces()[k] == x;
                    if k < i {
                        assert(o[k] == x);
                    } else {
                        assert(o[k + 1] == x);
                    }
                }
            }
        }
    }

    /// The labels of the surfaces an event with context `ctx` reaches.
    pub fn targets(&self, ctx: &WindowContext) -> (r: Vec<String>)
        ensures
            label_views(r@) == route(self.surfaces(), *ctx),
    {
        match ctx {
            WindowContext::NoWindow => {
                let mut r: Vec<String> = Vec::new();
                let mut i: usize = 0;
                while i < self.labels.len()
                    invariant
                        i <= self.labels@.len(),
                        label_views(r@) == self.surfaces().subrange(0, i as int),
                    decreases self.labels@.len() - i,
                {
                    let ghost before = r@;
                    r.push(self.labels[i].clone());
                    assert(label_views(r@) =~= label_views(before).push(self.labels@[i as int]@));
                    assert(label_views(r@) =~= self.surfaces().subrange(0, i + 1));
                    i = i + 1;
                }
                assert(self.surfaces().subrange(0, i as int) =~= self.surfaces());
                r
            },
            WindowContext::Label { label } => {
                let mut r: Vec<String> = Vec::new();
                if self.is_open(label.as_str()) {
                    r.push(label.clone());
                }
                assert(label_views(r@) =~= route(self.surfaces(), *ctx));
                r
            },
        }
    }
}

} // verus!
