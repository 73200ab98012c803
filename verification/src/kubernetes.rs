//! The application resource shapes that the cluster hands us, and the
//! merge-patch document built from them.

use vstd::prelude::*;

verus! {

#[verifier::external_type_specification]
#[verifier::external_body]
pub struct ExValue(serde_json::Value);

/// Relies on serde_json's `Clone` for `Value`: the clone is equal to the
/// original.
#[verifier::external_body]
fn clone_value(v: &serde_json::Value) -> (r: serde_json::Value)
    ensures
        r == *v,
{
    v.clone()
}

fn clone_opt_string(v: &Option<String>) -> (r: Option<String>)
    ensures
        r == *v,
{
    match v {
        Some(s) => Some(s.clone()),
        None => None,
    }
}

fn clone_opt_value(v: &Option<serde_json::Value>) -> (r: Option<serde_json::Value>)
    ensures
        r == *v,
{
    match v {
        Some(x) => Some(clone_value(x)),
        None => None,
    }
}

/// One source entry of an application resource. Only the chart name, the
/// repository URL and the pinned revision are ever read; the remaining
/// fields belong to other source kinds and are carried through opaquely.
pub struct SourceSpec {
    pub chart: Option<String>,
    pub repo_url: Option<String>,
    pub target_revision: Option<String>,
    pub helm: Option<serde_json::Value>,
    pub reference: Option<serde_json::Value>,
    pub path: Option<String>,
    pub kustomize: Option<serde_json::Value>,
    pub directory: Option<serde_json::Value>,
    pub plugin: Option<serde_json::Value>,
}

impl Clone for SourceSpec {
    fn clone(&self) -> (r: Self)
        ensures
            r == *self,
    {
        SourceSpec {
            chart: clone_opt_string(&self.chart),
            repo_url: clone_opt_string(&self.repo_url),
            target_revision: clone_opt_string(&self.target_revision),
            helm: clone_opt_value(&self.helm),
            reference: clone_opt_value(&self.reference),
            path: clone_opt_string(&self.path),
            kustomize: clone_opt_value(&self.kustomize),
            directory: clone_opt_value(&self.directory),
            plugin: clone_opt_value(&self.plugin),
        }
    }
}

impl SourceSpec {
    /// A source references a Helm chart exactly when it names one.
    pub open spec fn spec_is_helm(&self) -> bool {
        self.chart is Some
    }

    pub fn is_helm(&self) -> (r: bool)
        ensures
            r == self.spec_is_helm(),
    {
        self.chart.is_some()
    }
}

/// The specification of an application resource: exactly one of `source`
/// (a single entry) or `sources` (an ordered list) is populated, or both
/// are absent for a resource that references no package.
pub struct ApplicationSpec {
    pub project: String,
    pub source: Option<SourceSpec>,
    pub sources: Option<Vec<SourceSpec>>,
}

/// An application resource as the core reads it; the cluster owns the full
/// object, and patches are built as new values, never by mutating this.
pub struct Application {
    pub spec: ApplicationSpec,
}

impl Application {
    /// The single-source field is populated and references a Helm chart.
    pub open spec fn spec_helm_in_source(&self) -> bool {
        self.spec.source matches Some(s) && s.spec_is_helm()
    }

    /// The source-list field is populated and some entry references a Helm
    /// chart.
    pub open spec fn spec_helm_in_sources(&self) -> bool {
        self.spec.sources matches Some(ss) && exists|i: int|
            0 <= i < ss@.len() && #[trigger] ss@[i].spec_is_helm()
    }

    pub fn helm_in_source(&self) -> (r: bool)
        ensures
            r == self.spec_helm_in_source(),
    {
        if let Some(source) = &self.spec.source {
            return source.is_helm();
        }
        false
    }

    pub fn helm_in_sources(&self) -> (r: bool)
        ensures
            r == self.spec_helm_in_sources(),
    {
        if let Some(sources) = &self.spec.sources {
            let n = sources.len();
            let mut i: usize = 0;
            while i < n
                invariant
                    self.spec.sources == Some(*sources),
                    n == sources@.len(),
                    i <= n,
                    forall|j: int| 0 <= j < i ==> !sources@[j].spec_is_helm(),
                decreases n - i,
            {
                if sources[i].is_helm() {
                    proof {
                        assert(self.spec_helm_in_sources()) by {
                            assert(self.spec.sources matches Some(ss) && 0 <= i < ss@.len()
                                && ss@[i as int].spec_is_helm());
                        }
                    }
                    return true;
                }
                i += 1;
            }
        }
        false
    }

    pub fn contains_helm(&self) -> (r: bool)
        ensures
            r == (self.spec_helm_in_source() || self.spec_helm_in_sources()),
    {
        if self.helm_in_source() {
            return true;
        }
        if self.helm_in_sources() {
            return true;
        }
        false
    }
}

/// A partial update document for an application resource. It names only
/// the one field being changed — `spec.source` or `spec.sources` — so that
/// applying it with merge semantics leaves every unrelated field of the
/// live object untouched.
pub enum ApplicationPatch {
    Source(SourceSpec),
    Sources(Vec<SourceSpec>),
}

/// A source entry matches a chart name exactly when it names that chart,
/// by exact string equality; an entry lacking a chart name never matches.
pub open spec fn spec_matches_chart(s: SourceSpec, chart: Seq<char>) -> bool {
    s.chart matches Some(c) && c@ == chart
}

/// How one patched entry relates to the original entry: a matching entry
/// has exactly its pinned revision replaced by `rev` and every other field
/// carried through unchanged; a non-matching entry is unchanged.
pub open spec fn spec_source_patched(
    orig: SourceSpec,
    out: SourceSpec,
    chart: Seq<char>,
    rev: Seq<char>,
) -> bool {
    if spec_matches_chart(orig, chart) {
        &&& out.chart == orig.chart
        &&& out.repo_url == orig.repo_url
        &&& out.target_revision matches Some(t) && t@ == rev
        &&& out.helm == orig.helm
        &&& out.reference == orig.reference
        &&& out.path == orig.path
        &&& out.kustomize == orig.kustomize
        &&& out.directory == orig.directory
        &&& out.plugin == orig.plugin
    } else {
        out == orig
    }
}

fn patched_source(source: &SourceSpec, chart: &String, new_revision: &str) -> (r: SourceSpec)
    ensures
        spec_source_patched(*source, r, chart@, new_revision@),
{
    let mut patched = source.clone();
    let matches_chart: bool = match &source.chart {
        Some(c) => *c == *chart,
        None => false,
    };
    if matches_chart {
        patched.target_revision = Some(new_revision.to_owned());
    }
    patched
}

/// Builds the partial update document that re-pins `helm.chart` to
/// `new_revision` on the given resource. With a populated source list, the
/// patch carries the whole reconstructed list in original order, entries
/// matching the chart re-pinned and all others unchanged; otherwise the
/// patch carries the single source, re-pinned exactly when it matches.
pub fn get_application_patch(
    argo_application: &Application,
    helm: &crate::helm::HelmChart,
    new_revision: &str,
) -> (r: ApplicationPatch)
    requires
        argo_application.spec.sources is Some || argo_application.spec.source is Some,
    ensures
        argo_application.spec.sources matches Some(ss) ==> (r matches ApplicationPatch::Sources(ps)
            && ps@.len() == ss@.len() && forall|i: int|
            0 <= i < ss@.len() ==> spec_source_patched(
                ss@[i],
                #[trigger] ps@[i],
                helm.chart@,
                new_revision@,
            )),
        argo_application.spec.sources is None ==> (argo_application.spec.source matches Some(s)
            && r matches ApplicationPatch::Source(p) && spec_source_patched(
            s,
            p,
            helm.chart@,
            new_revision@,
        )),
{
    if let Some(sources) = &argo_application.spec.sources {
        let n = sources.len();
        let mut patched_sources: Vec<SourceSpec> = Vec::new();
        let mut i: usize = 0;
        while i < n
            invariant
                n == sources@.len(),
                i <= n,
                patched_sources@.len() == i,
                forall|j: int|
                    0 <= j < i ==> spec_source_patched(
                        sources@[j],
                        #[trigger] patched_sources@[j],
                        helm.chart@,
                        new_revision@,
                    ),
            decreases n - i,
        {
            patched_sources.push(patched_source(&sources[i], &helm.chart, new_revision));
            i += 1;
        }
        return ApplicationPatch::Sources(patched_sources);
    }
    let source = match &argo_application.spec.source {
        Some(source) => source,
        None => unreached(),
    };
    ApplicationPatch::Source(patched_source(source, &helm.chart, new_revision))
}

} // verus!
