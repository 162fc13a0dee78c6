use vstd::prelude::*;

verus! {

/// A single recorded tool call: which tool ran and how long it took.
#[derive(Debug, Clone, PartialEq, Eq)]
pub struct ToolTiming {
    /// Caller-supplied label identifying the tool.
    pub tool: String,
    /// Wall-clock time the call took, in milliseconds.
    pub elapsed_ms: u64,
}

/// A value that can label a recorded tool call.
///
/// `name_view` is the text the label stands for; `into_tool_name` turns the
/// value into an owned `String` holding exactly that text.
pub trait ToolName: Sized {
    spec fn name_view(&self) -> Seq<char>;

    fn into_tool_name(self) -> (name: String)
        ensures
            name@ == self.name_view(),
    ;
}

impl<'a> ToolName for &'a str {
    open spec fn name_view(&self) -> Seq<char> {
        (**self)@
    }

    fn into_tool_name(self) -> (name: String)
        ensures
            name@ == self@,
    {
        self.to_owned()
    }
}

impl ToolName for String {
    open spec fn name_view(&self) -> Seq<char> {
        self@
    }

    fn into_tool_name(self) -> (name: String)
        ensures
            name@ == self@,
    {
        self
    }
}

impl<'a> ToolName for &'a String {
    open spec fn name_view(&self) -> Seq<char> {
        (**self)@
    }

    fn into_tool_name(self) -> (name: String)
        ensures
            name@ == (*self)@,
    {
        self.clone()
    }
}

/// A `&str` label names the call by its whole text, unchanged.
pub proof fn law_str_label_is_its_text(label: &str)
    ensures
        ToolName::name_view(&label) == label@,
{
}

/// An owned `String` label names the call by its whole text, unchanged.
pub proof fn law_string_label_is_its_text(label: String)
    ensures
        label.name_view() == label@,
{
}

/// A `&String` label names the call by the whole text it refers to, unchanged.
pub proof fn law_string_ref_label_is_its_text(label: &String)
    ensures
        ToolName::name_view(&label) == (*label)@,
{
}

/// Sum of the elapsed times of a sequence of recorded calls.
pub open spec fn total_ms(calls: Seq<ToolTiming>) -> nat
    decreases calls.len(),
{
    if calls.len() == 0 {
        0
    } else {
        total_ms(calls.drop_last()) + calls.last().elapsed_ms as nat
    }
}

/// Appending a call adds its elapsed time to the total.
pub proof fn lemma_total_push(calls: Seq<ToolTiming>, call: ToolTiming)
    ensures
        total_ms(calls.push(call)) == total_ms(calls) + call.elapsed_ms,
{
    assert(calls.push(call).drop_last() =~= calls);
}

/// The total of a prefix never exceeds the total of the whole sequence.
pub proof fn lemma_total_prefix_le(calls: Seq<ToolTiming>, n: int)
    requires
        0 <= n <= calls.len(),
    ensures
        total_ms(calls.take(n)) <= total_ms(calls),
    decreases calls.len() - n,
{
    if n < calls.len() {
        lemma_total_prefix_le(calls, n + 1);
        assert(calls.take(n + 1).drop_last() =~= calls.take(n));
    } else {
        assert(calls.take(n) =~= calls);
    }
}

} // verus!
