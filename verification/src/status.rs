//! Outcome of a pipeline run, with its display label and style class.

use vstd::prelude::*;
use vstd::string::StringExecFns;

verus! {

/// Status of a pipeline run.
#[derive(Debug, Clone, Copy, PartialEq, Eq, Structural)]
pub enum PipelineStatus {
    Success,
    Failure,
    Pending,
    Cancelled,
}

impl PipelineStatus {
    /// The style class of a status, as text.
    pub open spec fn css_class_text(self) -> Seq<char> {
        match self {
            PipelineStatus::Success => "status-badge status-success"@,
            PipelineStatus::Failure => "status-badge status-failure"@,
            PipelineStatus::Pending => "status-badge status-pending"@,
            PipelineStatus::Cancelled => "status-badge status-cancelled"@,
        }
    }

    /// The display label of a status, as text.
    pub open spec fn label_text(self) -> Seq<char> {
        match self {
            PipelineStatus::Success => "success"@,
            PipelineStatus::Failure => "failure"@,
            PipelineStatus::Pending => "pending"@,
            PipelineStatus::Cancelled => "cancelled"@,
        }
    }

    /// Returns the CSS class for this status.
    pub fn css_class(self) -> (class: &'static str)
        ensures
            class@ == self.css_class_text(),
    {
        match self {
            PipelineStatus::Success => "status-badge status-success",
            PipelineStatus::Failure => "status-badge status-failure",
            PipelineStatus::Pending => "status-badge status-pending",
            PipelineStatus::Cancelled => "status-badge status-cancelled",
        }
    }

    /// Returns the display name for this status.
    pub fn as_str(self) -> (label: &'static str)
        ensures
            label@ == self.label_text(),
    {
        match self {
            PipelineStatus::Success => "success",
            PipelineStatus::Failure => "failure",
            PipelineStatus::Pending => "pending",
            PipelineStatus::Cancelled => "cancelled",
        }
    }
}

/// Label and style class tell the statuses apart: two different statuses have
/// different labels and different classes.
pub proof fn lemma_status_texts_differ(one: PipelineStatus, other: PipelineStatus)
    requires
        one != other,
    ensures
        one.label_text() != other.label_text(),
        one.css_class_text() != other.css_class_text(),
{
    reveal_strlit("success");
    reveal_strlit("failure");
    reveal_strlit("pending");
    reveal_strlit("cancelled");
    reveal_strlit("status-badge status-success");
    reveal_strlit("status-badge status-failure");
    reveal_strlit("status-badge status-pending");
    reveal_strlit("status-badge status-cancelled");
    assert(one.label_text()[0] != other.label_text()[0]);
    assert(one.css_class_text()[20] != other.css_class_text()[20]);
}

/// The markup of a status badge: the label in a span of the status's class.
pub open spec fn status_badge_markup(status: PipelineStatus) -> Seq<char> {
    "<span class=\""@ + status.css_class_text() + "\">"@ + status.label_text() + "</span>"@
}

/// Renders a status badge with appropriate styling.
pub fn status_badge(status: PipelineStatus) -> (markup: String)
    ensures
        markup@ == status_badge_markup(status),
{
    let mut markup = "<span class=\"".to_owned();
    markup.append(status.css_class());
    markup.append("\">");
    markup.append(status.as_str());
    markup.append("</span>");
    markup
}

} // verus!
