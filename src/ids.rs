use vstd::prelude::*;

verus! {

/// The segments joined with `sep` between them.
pub open spec fn join_with(segments: Seq<Seq<char>>, sep: Seq<char>) -> Seq<char>
    decreases segments.len(),
{
    if segments.len() == 0 {
        Seq::empty()
    } else if segments.len() == 1 {
        segments[0]
    } else {
        join_with(segments.drop_last(), sep) + sep + segments.last()
    }
}

/// A copy of `segments`, with the same views.
fn copy_segments(segments: &Vec<String>) -> (r: Vec<String>)
    ensures
        r@.len() == segments@.len(),
        forall|i: int| 0 <= i < r@.len() ==> #[trigger] r@[i]@ == segments@[i]@,
{
    let mut out: Vec<String> = Vec::new();
    let mut i: usize = 0;
    while i < segments.len()
        invariant
            0 <= i <= segments@.len(),
            out@.len() == i,
            forall|j: int| 0 <= j < i ==> #[trigger] out@[j]@ == segments@[j]@,
        decreases segments.len() - i,
    {
        out.push(segments[i].clone());
        i = i + 1;
    }
    out
}

/// The segments joined with `sep` between them.
fn join_segments(segments: &Vec<String>, sep: &str) -> (r: String)
    ensures
        r@ == join_with(segments@.map_values(|s: String| s@), sep@),
{
    let ghost views = segments@.map_values(|s: String| s@);
    let mut out = String::new();
    let mut i: usize = 0;
    while i < segments.len()
        invariant
            0 <= i <= segments@.len(),
            views == segments@.map_values(|s: String| s@),
            out@ == join_with(views.subrange(0, i as int), sep@),
        decreases segments.len() - i,
    {
        let ghost next = views.subrange(0, i + 1);
        assert(next.drop_last() =~= views.subrange(0, i as int));
        if i > 0 {
            out.append(sep);
        } else {
            assert(next.len() == 1);
        }
        out.append(segments[i].as_str());
        i = i + 1;
    }
    assert(views.subrange(0, segments@.len() as int) =~= views);
    out
}

/// The identifier of a UI component: a path of segments from a root-level
/// segment down to the component. Two identifiers are equal when their paths
/// are.
#[derive(Clone, PartialEq, Eq, Debug, Hash)]
pub struct ComponentId {
    segments: Vec<String>,
}

impl ComponentId {
    /// The path, root first.
    pub closed spec fn path(&self) -> Seq<Seq<char>> {
        self.segments@.map_values(|s: String| s@)
    }

    /// A root-level identifier.
    pub fn new(id: &str) -> (r: Self)
        ensures
            r.path() == seq![id@],
    {
        let mut segments: Vec<String> = Vec::new();
        segments.push(id.to_string());
        let r = ComponentId { segments };
        assert(r.path() =~= seq![id@]);
        r
    }

    /// The identifier of a child of this component.
    pub fn child(&self, child_id: &str) -> (r: Self)
        ensures
            r.path() == self.path().push(child_id@),
    {
        let mut segments = copy_segments(&self.segments);
        segments.push(child_id.to_string());
        let r = ComponentId { segments };
        assert(r.path() =~= self.path().push(child_id@));
        r
    }

    /// The path written with "/" between segments.
    pub fn to_path_string(&self) -> (r: String)
        ensures
            r@ == join_with(self.path(), "/"@),
    {
        join_segments(&self.segments, "/")
    }
}

/// A tree of identifiers for configuration widgets: a path of segments from
/// the root down.
#[derive(Clone, PartialEq, Eq, Debug, Hash)]
pub struct IdTree {
    segments: Vec<String>,
}

impl IdTree {
    /// The path, root first.
    pub closed spec fn path(&self) -> Seq<Seq<char>> {
        self.segments@.map_values(|s: String| s@)
    }

    /// A root of a tree of identifiers.
    pub fn new(id: &str) -> (r: Self)
        ensures
            r.path() == seq![id@],
    {
        let mut segments: Vec<String> = Vec::new();
        segments.push(id.to_string());
        let r = IdTree { segments };
        assert(r.path() =~= seq![id@]);
        r
    }

    /// The child identifier `child_id` below this one.
    pub fn child(&self, child_id: &str) -> (r: Self)
        ensures
            r.path() == self.path().push(child_id@),
    {
        let mut segments = copy_segments(&self.segments);
        segments.push(child_id.to_string());
        let r = IdTree { segments };
        assert(r.path() =~= self.path().push(child_id@));
        r
    }

    /// The path written with "." between segments.
    pub fn to_path_string(&self) -> (r: String)
        ensures
            r@ == join_with(self.path(), "."@),
    {
        join_segments(&self.segments, ".")
    }
}

} // verus!
