//! The findings that the rules report.

use vstd::prelude::*;
use crate::module::ModuleId;
use crate::syntax::Span;

verus! {

/// How serious a finding is.
#[derive(Clone, Copy, Debug, PartialEq, Eq, Structural)]
pub enum Severity {
    Error,
    Warning,
}

/// A finding: what is wrong, where, how serious, and in which module.
#[derive(Clone, Debug, PartialEq, Eq)]
pub struct Diagnostic {
    pub message: String,
    pub span: Span,
    pub severity: Severity,
    pub module: ModuleId,
}

/// A finding as contracts speak of it, with the message as its characters.
pub struct DiagnosticView {
    pub message: Seq<char>,
    pub span: Span,
    pub severity: Severity,
    pub module: ModuleId,
}

impl View for Diagnostic {
    type V = DiagnosticView;

    open spec fn view(&self) -> DiagnosticView {
        DiagnosticView {
            message: self.message@,
            span: self.span,
            severity: self.severity,
            module: self.module,
        }
    }
}

/// The findings of a list, each by its view.
pub open spec fn views(diagnostics: Seq<Diagnostic>) -> Seq<DiagnosticView> {
    diagnostics.map_values(|d: Diagnostic| d@)
}

/// `after` is `before` with new findings behind it, and those are `added`.
pub open spec fn appended(
    before: Seq<Diagnostic>,
    after: Seq<Diagnostic>,
    added: Seq<DiagnosticView>,
) -> bool {
    &&& after.len() == before.len() + added.len()
    &&& after.take(before.len() as int) == before
    &&& views(after.skip(before.len() as int)) == added
}

/// Appending nothing leaves the list as it is.
pub proof fn lemma_appended_nothing(list: Seq<Diagnostic>)
    ensures
        appended(list, list, Seq::empty()),
{
    assert(list.take(list.len() as int) =~= list);
    assert(views(list.skip(list.len() as int)) =~= Seq::empty());
}

/// Pushing one finding appends its view.
pub proof fn lemma_appended_push(list: Seq<Diagnostic>, d: Diagnostic)
    ensures
        appended(list, list.push(d), seq![d@]),
{
    let after = list.push(d);
    assert(after.take(list.len() as int) =~= list);
    assert(views(after.skip(list.len() as int)) =~= seq![d@]);
}

/// Appending twice appends the two additions one after the other.
pub proof fn lemma_appended_twice(
    a: Seq<Diagnostic>,
    b: Seq<Diagnostic>,
    c: Seq<Diagnostic>,
    first: Seq<DiagnosticView>,
    second: Seq<DiagnosticView>,
)
    requires
        appended(a, b, first),
        appended(b, c, second),
    ensures
        appended(a, c, first + second),
{
    let n = a.len() as int;
    let m = b.len() as int;
    assert(c.take(n) =~= a) by {
        assert forall|i: int| 0 <= i < n implies c.take(n)[i] == a[i] by {
            assert(c.take(m)[i] == b[i]);
            assert(b.take(n)[i] == a[i]);
        }
    }
    assert(views(c.skip(n)) =~= first + second) by {
        let both = first + second;
        assert forall|i: int| 0 <= i < both.len() implies views(c.skip(n))[i] == both[i] by {
            if i < first.len() {
                assert(c.take(m)[n + i] == b[n + i]);
                assert(views(b.skip(n))[i] == b[n + i]@);
            } else {
                assert(views(c.skip(m))[i - first.len()] == c[m + (i - first.len())]@);
            }
        }
    }
}

/// A list appended to the empty list is the addition itself.
pub proof fn lemma_appended_from_empty(after: Seq<Diagnostic>, added: Seq<DiagnosticView>)
    requires
        appended(Seq::empty(), after, added),
    ensures
        views(after) == added,
{
    assert(after.skip(0) =~= after);
}

} // verus!
