//! Human-facing rationale attached to a step and to its reversal.

use vstd::prelude::*;

verus! {

/// Mathematical content of an [`ActionDescription`].
pub struct DescriptionView {
    pub title: Seq<char>,
    pub explanation: Seq<Seq<char>>,
}

/// The text of each string of a sequence, in order.
pub open spec fn texts(lines: Seq<String>) -> Seq<Seq<char>> {
    lines.map_values(|line: String| line@)
}

/// The content of each description of a sequence, in order.
pub open spec fn views(descriptions: Seq<ActionDescription>) -> Seq<DescriptionView> {
    descriptions.map_values(|d: ActionDescription| d@)
}

/// The explanation as it is rendered: every sentence on a line of its own,
/// indented by two spaces.
pub open spec fn render_explanation(lines: Seq<Seq<char>>) -> Seq<char>
    decreases lines.len(),
{
    if lines.len() == 0 {
        Seq::empty()
    } else {
        render_explanation(lines.drop_last()) + "  "@ + lines.last() + "\n"@
    }
}

/// One description as it is rendered: the title as a bullet, followed by the
/// explanation when `explain` is set.
pub open spec fn render_description(d: DescriptionView, explain: bool) -> Seq<char> {
    if explain {
        "* "@ + d.title + "\n"@ + render_explanation(d.explanation)
    } else {
        "* "@ + d.title + "\n"@
    }
}

/// Several descriptions rendered one after the other.
pub open spec fn render_descriptions(ds: Seq<DescriptionView>, explain: bool) -> Seq<char>
    decreases ds.len(),
{
    if ds.len() == 0 {
        Seq::empty()
    } else {
        render_descriptions(ds.drop_last(), explain) + render_description(ds.last(), explain)
    }
}

/// A short imperative title and the sentences that support it.
#[derive(Debug, Clone, PartialEq, Eq)]
pub struct ActionDescription {
    pub title: String,
    pub explanation: Vec<String>,
}

impl View for ActionDescription {
    type V = DescriptionView;

    open spec fn view(&self) -> DescriptionView {
        DescriptionView { title: self.title@, explanation: texts(self.explanation@) }
    }
}

impl ActionDescription {
    pub fn new(title: String, explanation: Vec<String>) -> (d: Self)
        ensures
            d.title == title,
            d.explanation == explanation,
            d@ == (DescriptionView { title: title@, explanation: texts(explanation@) }),
    {
        ActionDescription { title, explanation }
    }

    /// Renders the description for a prompt.
    pub fn render(&self, explain: bool) -> (out: String)
        ensures
            out@ == render_description(self@, explain),
    {
        let mut out = String::from_str("* ");
        out.append(self.title.as_str());
        out.append("\n");
        if explain {
            let ghost head = out@;
            let n = self.explanation.len();
            let mut i: usize = 0;
            while i < n
                invariant
                    i <= n,
                    n == self.explanation.len(),
                    head == "* "@ + self.title@ + "\n"@,
                    out@ == head + render_explanation(texts(self.explanation@).take(i as int)),
                decreases n - i,
            {
                let ghost lines = texts(self.explanation@);
                assert(lines.take(i + 1).drop_last() =~= lines.take(i as int));
                out.append("  ");
                out.append(self.explanation[i].as_str());
                out.append("\n");
                i += 1;
            }
            assert(texts(self.explanation@).take(n as int) =~= texts(self.explanation@));
        }
        out
    }
}

/// Renders several descriptions one after the other.
pub fn render_all(descriptions: &Vec<ActionDescription>, explain: bool) -> (out: String)
    ensures
        out@ == render_descriptions(views(descriptions@), explain),
{
    let mut out = String::new();
    let n = descriptions.len();
    let mut i: usize = 0;
    while i < n
        invariant
            i <= n,
            n == descriptions.len(),
            out@ == render_descriptions(views(descriptions@).take(i as int), explain),
        decreases n - i,
    {
        let ghost ds = views(descriptions@);
        assert(ds.take(i + 1).drop_last() =~= ds.take(i as int));
        let piece = descriptions[i].render(explain);
        out.append(piece.as_str());
        i += 1;
    }
    assert(views(descriptions@).take(n as int) =~= views(descriptions@));
    out
}

} // verus!
