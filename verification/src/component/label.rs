//! Render pipeline labels: the keys that join render data to pipelines.

use vstd::prelude::*;
use vstd::std_specs::cmp::PartialEqSpecImpl;

verus! {

/// A render pipeline label: the key that joins render data to a pipeline.
#[derive(Debug, Clone, Copy)]
pub enum RenderPipelineLabel<'a> {
    SimpleVertexColor,
    BasePass,
    Custom(&'a str),
}

/// What a label is, apart from where its name is stored.
pub enum PipelineLabelView {
    SimpleVertexColor,
    BasePass,
    Custom(Seq<char>),
}

impl<'a> View for RenderPipelineLabel<'a> {
    type V = PipelineLabelView;

    open spec fn view(&self) -> PipelineLabelView {
        match *self {
            RenderPipelineLabel::SimpleVertexColor => PipelineLabelView::SimpleVertexColor,
            RenderPipelineLabel::BasePass => PipelineLabelView::BasePass,
            RenderPipelineLabel::Custom(name) => PipelineLabelView::Custom(name@),
        }
    }
}

impl PipelineLabelView {
    /// The name under which the label is shown.
    pub open spec fn name(self) -> Seq<char> {
        match self {
            PipelineLabelView::SimpleVertexColor => "SimpleVertexColor"@,
            PipelineLabelView::BasePass => "BasePass"@,
            PipelineLabelView::Custom(name) => name,
        }
    }
}

impl<'a> Default for RenderPipelineLabel<'a> {
    fn default() -> (l: Self)
        ensures
            l@ == PipelineLabelView::SimpleVertexColor,
    {
        RenderPipelineLabel::SimpleVertexColor
    }
}

/// Whether two strings hold the same characters.
pub fn same_text(a: &str, b: &str) -> (same: bool)
    ensures
        same == (a@ == b@),
{
    let x = a.as_bytes();
    let y = b.as_bytes();
    proof {
        vstd::utf8::encode_utf8_decode_utf8(a@);
        vstd::utf8::encode_utf8_decode_utf8(b@);
    }
    if x.len() != y.len() {
        return false;
    }
    let mut i: usize = 0;
    while i < x.len()
        invariant
            x@ == vstd::utf8::encode_utf8(a@),
            y@ == vstd::utf8::encode_utf8(b@),
            x.len() == y.len(),
            i <= x.len(),
            forall|j: int| 0 <= j < i ==> x@[j] == y@[j],
        decreases x.len() - i,
    {
        if x[i] != y[i] {
            return false;
        }
        i += 1;
    }
    assert(x@ =~= y@);
    true
}

impl<'a> PartialEq for RenderPipelineLabel<'a> {
    fn eq(&self, other: &Self) -> (same: bool) {
        same_label(self, other)
    }
}

impl<'a> PartialEqSpecImpl for RenderPipelineLabel<'a> {
    open spec fn obeys_eq_spec() -> bool {
        true
    }

    open spec fn eq_spec(&self, other: &Self) -> bool {
        self@ == other@
    }
}

/// Conversion of an enum item to the string that names it.
pub trait EnumToString {
    /// Whether the text may come out as the item's name. An enum that says
    /// nothing of its names may be given any.
    open spec fn named(&self, text: Seq<char>) -> bool {
        true
    }

    fn to_string(&self) -> (s: String)
        ensures
            self.named(s@),
    ;
}

impl<'a> EnumToString for RenderPipelineLabel<'a> {
    /// A custom label is named as it was given; a fixed one by its tag.
    open spec fn named(&self, text: Seq<char>) -> bool {
        text == self@.name()
    }

    fn to_string(&self) -> (s: String) {
        match *self {
            RenderPipelineLabel::SimpleVertexColor => "SimpleVertexColor".to_owned(),
            RenderPipelineLabel::BasePass => "BasePass".to_owned(),
            RenderPipelineLabel::Custom(name) => name.to_owned(),
        }
    }
}

/// The labels of a list, apart from where their names are stored.
pub open spec fn label_views(labels: Seq<RenderPipelineLabel<'_>>) -> Seq<PipelineLabelView> {
    Seq::new(labels.len(), |i: int| labels[i]@)
}

/// Whether a list of labels holds the given one.
pub fn holds_label(labels: &[RenderPipelineLabel<'_>], label: RenderPipelineLabel<'_>) -> (found:
    bool)
    ensures
        found == label_views(labels@).contains(label@),
{
    let mut i: usize = 0;
    while i < labels.len()
        invariant
            i <= labels.len(),
            forall|j: int| 0 <= j < i ==> label_views(labels@)[j] != label@,
        decreases labels.len() - i,
    {
        if same_label(&labels[i], &label) {
            assert(label_views(labels@)[i as int] == label@);
            return true;
        }
        i += 1;
    }
    false
}

/// Whether two labels are the same: both the same fixed tag, or both custom
/// with the same name.
pub fn same_label(a: &RenderPipelineLabel<'_>, b: &RenderPipelineLabel<'_>) -> (same: bool)
    ensures
        same == (a@ == b@),
{
    match (*a, *b) {
        (RenderPipelineLabel::SimpleVertexColor, RenderPipelineLabel::SimpleVertexColor) => true,
        (RenderPipelineLabel::BasePass, RenderPipelineLabel::BasePass) => true,
        (RenderPipelineLabel::Custom(x), RenderPipelineLabel::Custom(y)) => same_text(x, y),
        _ => false,
    }
}

} // verus!
