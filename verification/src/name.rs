//! Names of functions: a bare name, or a path of namespace segments.
//!
//! Both have one canonical text: the bare name itself, or the segments joined by `::`.

use vstd::prelude::*;
use vstd::string::*;

verus! {

/// The name by which a function is called.
#[derive(Debug)]
pub enum FunctionName {
    /// A bare name.
    Single(String),
    /// A path of namespace segments, outermost first. A path has at least one segment.
    Namespace(Vec<String>),
}

/// The model of a [`FunctionName`].
pub enum FunctionNameView {
    Single(Seq<char>),
    Namespace(Seq<Seq<char>>),
}

impl DeepView for FunctionName {
    type V = FunctionNameView;

    open spec fn deep_view(&self) -> FunctionNameView {
        match self {
            FunctionName::Single(name) => FunctionNameView::Single(name@),
            FunctionName::Namespace(segments) => FunctionNameView::Namespace(
                segments.deep_view(),
            ),
        }
    }
}

/// Whether `name` can be an identifier: whether it is not empty.
pub open spec fn is_identifier(name: Seq<char>) -> bool {
    name.len() > 0
}

/// Whether each of `names` can be an identifier.
pub open spec fn are_identifiers(names: Seq<Seq<char>>) -> bool {
    forall|i: int| 0 <= i < names.len() ==> is_identifier(#[trigger] names[i])
}

/// Whether each of `names` can be an identifier.
pub fn all_identifiers(names: &Vec<String>) -> (b: bool)
    ensures
        b == are_identifiers(names.deep_view()),
{
    let mut i: usize = 0;
    while i < names.len()
        invariant
            i <= names.len(),
            forall|k: int| 0 <= k < i ==> is_identifier(#[trigger] names.deep_view()[k]),
        decreases names.len() - i,
    {
        if names[i].as_str().is_empty() {
            assert(!is_identifier(names.deep_view()[i as int]));
            return false;
        }
        i += 1;
    }
    true
}

/// The text between two segments of a path: `::`.
pub open spec fn delimiter() -> Seq<char> {
    seq![':', ':']
}

/// The segments in their order, with [`delimiter`] between each two neighbours: nothing before
/// the first and nothing after the last. No segment is dropped, merged with an equal one or
/// moved.
pub open spec fn join(segments: Seq<Seq<char>>) -> Seq<char>
    decreases segments.len(),
{
    if segments.len() == 0 {
        Seq::empty()
    } else if segments.len() == 1 {
        segments[0]
    } else {
        join(segments.drop_last()) + delimiter() + segments.last()
    }
}

impl FunctionNameView {
    /// A path has at least one segment.
    pub open spec fn has_segments(self) -> bool {
        self matches FunctionNameView::Namespace(segments) ==> segments.len() > 0
    }

    /// The name is made of identifiers, and a path has at least one of them.
    pub open spec fn well_formed(self) -> bool {
        match self {
            FunctionNameView::Single(name) => is_identifier(name),
            FunctionNameView::Namespace(segments) => segments.len() > 0 && are_identifiers(
                segments,
            ),
        }
    }

    /// The one text that stands for the name.
    pub open spec fn canonical(self) -> Seq<char> {
        match self {
            FunctionNameView::Single(name) => name,
            FunctionNameView::Namespace(segments) => join(segments),
        }
    }
}

impl FunctionName {
    /// Whether a path has at least one segment. A bare name always passes.
    pub fn has_segments(&self) -> (b: bool)
        ensures
            b == self.deep_view().has_segments(),
    {
        match self {
            FunctionName::Single(_) => true,
            FunctionName::Namespace(segments) => segments.len() > 0,
        }
    }

    /// Whether the name is made of identifiers, and has at least one segment if it is a path.
    pub fn is_well_formed(&self) -> (b: bool)
        ensures
            b == self.deep_view().well_formed(),
    {
        match self {
            FunctionName::Single(name) => !name.as_str().is_empty(),
            FunctionName::Namespace(segments) => segments.len() > 0 && all_identifiers(segments),
        }
    }

    /// The canonical text of the name: a bare name unchanged, a path as its segments joined by
    /// `::`. A path without segments names nothing and is left out.
    pub fn to_string(&self) -> (text: String)
        requires
            self.deep_view().has_segments(),
        ensures
            text@ == self.deep_view().canonical(),
            self.deep_view().well_formed() ==> text@.len() > 0,
    {
        match self {
            FunctionName::Single(name) => name.clone(),
            FunctionName::Namespace(segments) => {
                let ghost all = segments.deep_view();
                let mut text = String::new();
                let mut i: usize = 0;
                while i < segments.len()
                    invariant
                        i <= segments.len(),
                        all == segments.deep_view(),
                        text@ == join(all.take(i as int)),
                        i > 0 && all[0].len() > 0 ==> text@.len() > 0,
                    decreases segments.len() - i,
                {
                    if i > 0 {
                        proof {
                            reveal_strlit("::");
                        }
                        text.append("::");
                    }
                    text.append(segments[i].as_str());
                    proof {
                        let grown = all.take(i + 1);
                        assert(grown.drop_last() =~= all.take(i as int));
                    }
                    i += 1;
                }
                assert(all.take(i as int) =~= all);
                text
            },
        }
    }

    /// The canonical text of the name, as [`to_string`](FunctionName::to_string) gives it.
    pub fn as_single(&self) -> (text: String)
        requires
            self.deep_view().has_segments(),
        ensures
            text@ == self.deep_view().canonical(),
            self.deep_view().well_formed() ==> text@.len() > 0,
    {
        self.to_string()
    }

    /// The canonical text of the name, or `None` for a path without segments, which names
    /// nothing and has no canonical text.
    pub fn checked_as_single(&self) -> (text: Option<String>)
        ensures
            text is Some <==> self.deep_view().has_segments(),
            text is Some ==> text->Some_0@ == self.deep_view().canonical(),
    {
        if self.has_segments() {
            Some(self.as_single())
        } else {
            None
        }
    }
}

} // verus!
