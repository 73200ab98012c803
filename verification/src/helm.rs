//! Helm chart references, repository index catalogs, and the policy that
//! picks the newest qualifying published version of a chart.

use vstd::prelude::*;

use crate::kubernetes::SourceSpec;

verus! {

/// An incomplete source record cannot become a [`HelmChart`]; the variant
/// names the first missing field in the fixed check order chart,
/// repository URL, pinned revision.
#[derive(Debug, Clone, Copy, PartialEq, Eq, Structural)]
pub enum ValidationError {
    MissingChart,
    MissingRepoUrl,
    MissingTargetRevision,
}

/// A normalized, validated chart reference: chart `chart` from repository
/// `repo`, pinned at revision `revision`.
#[derive(Debug)]
pub struct HelmChart {
    pub chart: String,
    pub repo: String,
    pub revision: String,
}

impl HelmChart {
    /// Fallible conversion from a loosely-typed source record; absence of
    /// any required field is a failure, never a default.
    pub fn try_from(value: SourceSpec) -> (r: Result<HelmChart, ValidationError>)
        ensures
            value.chart is None ==> r == Err::<HelmChart, ValidationError>(
                ValidationError::MissingChart,
            ),
            value.chart is Some && value.repo_url is None ==> r == Err::<
                HelmChart,
                ValidationError,
            >(ValidationError::MissingRepoUrl),
            value.chart is Some && value.repo_url is Some && value.target_revision is None ==> r
                == Err::<HelmChart, ValidationError>(ValidationError::MissingTargetRevision),
            value.chart is Some && value.repo_url is Some && value.target_revision is Some ==> (
            r matches Ok(hc) && hc.chart == value.chart->0 && hc.repo == value.repo_url->0
                && hc.revision == value.target_revision->0),
    {
        let SourceSpec { chart, repo_url, target_revision, .. } = value;
        let chart = match chart {
            Some(c) => c,
            None => {
                return Err(ValidationError::MissingChart);
            },
        };
        let repo = match repo_url {
            Some(u) => u,
            None => {
                return Err(ValidationError::MissingRepoUrl);
            },
        };
        let revision = match target_revision {
            Some(t) => t,
            None => {
                return Err(ValidationError::MissingTargetRevision);
            },
        };
        Ok(HelmChart { chart, repo, revision })
    }
}

/// A catalog lookup failure: either the chart has no entry at all, or none
/// of its records parses as a qualifying (non-pre-release) semantic version.
#[derive(Debug, Clone, Copy, PartialEq, Eq, Structural)]
pub enum LookupError {
    ChartNotFound,
    NoQualifyingVersion,
}

/// A repository index fetch failure: the transport did not succeed, or the
/// body did not deserialize into an index document.
#[derive(Debug, Clone, Copy, PartialEq, Eq, Structural)]
pub enum FetchError {
    Transport,
    InvalidBody,
}

/// An update check failure, wrapping the failure of the fetch or of the
/// catalog lookup.
#[derive(Debug, Clone, Copy, PartialEq, Eq, Structural)]
pub enum CheckError {
    FetchFailed(FetchError),
    CatalogLookupFailed(LookupError),
}

/// One published version record of a chart, as the repository index lists
/// it. The creation timestamp is carried verbatim and never interpreted:
/// the newest-version policy orders by semantic version, not by timestamp.
#[derive(Debug, Clone)]
pub struct HelmRepoChartVersion {
    pub api_version: Option<String>,
    pub name: String,
    pub version: String,
    pub created: String,
}

/// One chart's entry in the repository index: the chart name and its
/// published version records in catalog order.
#[derive(Debug, Clone)]
pub struct ChartEntry {
    pub name: String,
    pub versions: Vec<HelmRepoChartVersion>,
}

/// A repository index document: a catalog mapping chart names to their
/// ordered version records.
#[derive(Debug, Clone)]
pub struct HelmRepoIndex {
    pub api_version: String,
    pub entries: Vec<ChartEntry>,
}

/// What `versions::SemVer::new` parses out of a string: major, minor and
/// patch numbers, and whether a pre-release qualifier is present; `None`
/// where the string is not a semantic version.
pub uninterp spec fn semver_of(s: Seq<char>) -> Option<(u32, u32, u32, bool)>;

/// Relies on `versions::SemVer::new`: the parse is a pure function of the
/// string alone. The final component records whether the parsed version
/// carries a pre-release qualifier.
#[verifier::external_body]
fn parse_semver(s: &str) -> (r: Option<(u32, u32, u32, bool)>)
    ensures
        r == semver_of(s@),
{
    match versions::SemVer::new(s) {
        Some(sv) => Some((sv.major, sv.minor, sv.patch, sv.pre_rel.is_some())),
        None => None,
    }
}

/// A version string with its optional leading `v` marker removed.
pub open spec fn stripped_marker(s: Seq<char>) -> Seq<char> {
    if s.len() > 0 && s[0] == 'v' {
        s.skip(1)
    } else {
        s
    }
}

/// The (major, minor, patch) key under which a version string competes for
/// "newest", or `None` where it does not qualify: strings that do not parse
/// as semantic versions and versions with a pre-release qualifier are
/// excluded from consideration.
pub open spec fn qualifying_triple(version: Seq<char>) -> Option<(u32, u32, u32)> {
    match semver_of(stripped_marker(version)) {
        Some(parts) => if !parts.3 {
            Some((parts.0, parts.1, parts.2))
        } else {
            None
        },
        None => None,
    }
}

/// Strict semantic-version ordering on (major, minor, patch) keys.
pub open spec fn triple_lt(a: (u32, u32, u32), b: (u32, u32, u32)) -> bool {
    ||| a.0 < b.0
    ||| (a.0 == b.0 && a.1 < b.1)
    ||| (a.0 == b.0 && a.1 == b.1 && a.2 < b.2)
}

/// The winner among the first `n` records: its key and its literal version
/// string. A later record wins only by a strictly greater key, so among
/// records with identical keys the first in catalog order is kept.
pub open spec fn newest_upto(
    versions: Seq<HelmRepoChartVersion>,
    n: int,
) -> Option<((u32, u32, u32), Seq<char>)>
    decreases n,
{
    if n <= 0 {
        None
    } else {
        let prev = newest_upto(versions, n - 1);
        match qualifying_triple(versions[n - 1].version@) {
            Some(t) => match prev {
                None => Some((t, versions[n - 1].version@)),
                Some(best) => if triple_lt(best.0, t) {
                    Some((t, versions[n - 1].version@))
                } else {
                    Some(best)
                },
            },
            None => prev,
        }
    }
}

/// The literal version string of the newest qualifying record, or `None`
/// where no record qualifies.
pub open spec fn newest_qualifying(versions: Seq<HelmRepoChartVersion>) -> Option<Seq<char>> {
    match newest_upto(versions, versions.len() as int) {
        Some(best) => Some(best.1),
        None => None,
    }
}

/// The version records of the first entry named `name`, or `None` where no
/// entry is.
pub open spec fn chart_versions(entries: Seq<ChartEntry>, name: Seq<char>) -> Option<
    Seq<HelmRepoChartVersion>,
>
    decreases entries.len(),
{
    if entries.len() == 0 {
        None
    } else if entries[0].name@ == name {
        Some(entries[0].versions@)
    } else {
        chart_versions(entries.skip(1), name)
    }
}

proof fn lemma_chart_versions_skip(entries: Seq<ChartEntry>, name: Seq<char>, i: int)
    requires
        0 <= i <= entries.len(),
        forall|j: int| 0 <= j < i ==> entries[j].name@ != name,
    ensures
        chart_versions(entries, name) == chart_versions(entries.skip(i), name),
    decreases i,
{
    if i > 0 {
        lemma_chart_versions_skip(entries.skip(1), name, i - 1);
        assert(entries.skip(1).skip(i - 1) =~= entries.skip(i));
    } else {
        assert(entries.skip(0) =~= entries);
    }
}

fn triple_newer(prior: (u32, u32, u32), challenger: (u32, u32, u32)) -> (r: bool)
    ensures
        r == triple_lt(prior, challenger),
{
    prior.0 < challenger.0 || (prior.0 == challenger.0 && prior.1 < challenger.1) || (prior.0
        == challenger.0 && prior.1 == challenger.1 && prior.2 < challenger.2)
}

fn stripped_version(ver: &String) -> (r: &str)
    ensures
        r@ == stripped_marker(ver@),
{
    let s: &str = ver.as_str();
    let n: usize = s.unicode_len();
    if n > 0 && s.get_char(0) == 'v' {
        let rest = s.substring_char(1, n);
        proof {
            assert(rest@ =~= ver@.skip(1));
        }
        rest
    } else {
        s
    }
}

fn newest_of(versions: &Vec<HelmRepoChartVersion>) -> (r: Option<String>)
    ensures
        match newest_qualifying(versions@) {
            Some(lit) => r matches Some(s) && s@ == lit,
            None => r is None,
        },
{
    let mut best: Option<((u32, u32, u32), String)> = None;
    let n = versions.len();
    let mut i: usize = 0;
    while i < n
        invariant
            n == versions@.len(),
            i <= n,
            match newest_upto(versions@, i as int) {
                Some(b) => best matches Some(e) && e.0 == b.0 && e.1@ == b.1,
                None => best is None,
            },
        decreases n - i,
    {
        let stripped = stripped_version(&versions[i].version);
        let cand: Option<(u32, u32, u32)> = match parse_semver(stripped) {
            Some((major, minor, patch, pre_rel)) => if pre_rel {
                None
            } else {
                Some((major, minor, patch))
            },
            None => None,
        };
        proof {
            assert(cand == qualifying_triple(versions@[i as int].version@));
        }
        if let Some(t) = cand {
            let replace: bool = match &best {
                Some(b) => triple_newer(b.0, t),
                None => true,
            };
            if replace {
                best = Some((t, versions[i].version.clone()));
            }
        }
        i += 1;
    }
    match best {
        Some((_, s)) => Some(s),
        None => None,
    }
}

impl HelmRepoIndex {
    /// The newest qualifying version of the named chart: records are keyed
    /// by their semantic version with any leading `v` marker stripped;
    /// unparsable records and pre-releases never win; ties on the key keep
    /// the first record in catalog order.
    pub fn get_newest_chart_version(&self, chart_name: &str) -> (r: Result<String, LookupError>)
        ensures
            match chart_versions(self.entries@, chart_name@) {
                None => r == Err::<String, LookupError>(LookupError::ChartNotFound),
                Some(vs) => match newest_qualifying(vs) {
                    None => r == Err::<String, LookupError>(LookupError::NoQualifyingVersion),
                    Some(lit) => r matches Ok(s) && s@ == lit,
                },
            },
    {
        let want: String = chart_name.to_owned();
        let n = self.entries.len();
        let mut i: usize = 0;
        while i < n
            invariant
                n == self.entries@.len(),
                i <= n,
                want@ == chart_name@,
                forall|j: int| 0 <= j < i ==> self.entries@[j].name@ != chart_name@,
            decreases n - i,
        {
            if self.entries[i].name == want {
                proof {
                    lemma_chart_versions_skip(self.entries@, chart_name@, i as int);
                }
                let found = newest_of(&self.entries[i].versions);
                return match found {
                    Some(s) => Ok(s),
                    None => Err(LookupError::NoQualifyingVersion),
                };
            }
            i += 1;
        }
        proof {
            lemma_chart_versions_skip(self.entries@, chart_name@, n as int);
        }
        Err(LookupError::ChartNotFound)
    }
}

proof fn lemma_newest_upto_maximal(versions: Seq<HelmRepoChartVersion>, n: int)
    requires
        0 <= n <= versions.len(),
    ensures
        match newest_upto(versions, n) {
            Some(best) => {
                &&& exists|i: int|
                    0 <= i < n && versions[i].version@ == best.1 && qualifying_triple(
                        versions[i].version@,
                    ) == Some(best.0)
                &&& forall|i: int|
                    0 <= i < n ==> match qualifying_triple(#[trigger] versions[i].version@) {
                        Some(t) => !triple_lt(best.0, t),
                        None => true,
                    }
            },
            None => forall|i: int|
                0 <= i < n ==> qualifying_triple(#[trigger] versions[i].version@) is None,
        },
    decreases n,
{
    if n > 0 {
        lemma_newest_upto_maximal(versions, n - 1);
        let prev = newest_upto(versions, n - 1);
        match qualifying_triple(versions[n - 1].version@) {
            Some(t) => match prev {
                None => {
                    assert(newest_upto(versions, n) == Some((t, versions[n - 1].version@)));
                },
                Some(best) => {
                    if triple_lt(best.0, t) {
                        assert forall|i: int|
                            0 <= i < n implies match qualifying_triple(
                            #[trigger] versions[i].version@,
                        ) {
                            Some(u) => !triple_lt(t, u),
                            None => true,
                        } by {
                            if i < n - 1 {
                                match qualifying_triple(versions[i].version@) {
                                    Some(u) => {
                                        assert(!triple_lt(best.0, u));
                                    },
                                    None => {},
                                }
                            }
                        }
                    }
                },
            },
            None => {},
        }
    }
}

/// Which record wins "newest qualifying version" does not depend on where
/// in the catalog it stands: the winner is one of the catalog's qualifying
/// records, and its semantic-version key is at least the key of every
/// qualifying record; and no winner exists exactly when no record
/// qualifies.
pub proof fn lemma_newest_qualifying_maximal(versions: Seq<HelmRepoChartVersion>)
    ensures
        match newest_upto(versions, versions.len() as int) {
            Some(best) => {
                &&& newest_qualifying(versions) == Some(best.1)
                &&& exists|i: int|
                    0 <= i < versions.len() && versions[i].version@ == best.1 && qualifying_triple(
                        versions[i].version@,
                    ) == Some(best.0)
                &&& forall|i: int|
                    0 <= i < versions.len() ==> match qualifying_triple(
                        #[trigger] versions[i].version@,
                    ) {
                        Some(t) => !triple_lt(best.0, t),
                        None => true,
                    }
            },
            None => {
                &&& newest_qualifying(versions) is None
                &&& forall|i: int|
                    0 <= i < versions.len() ==> qualifying_triple(
                        #[trigger] versions[i].version@,
                    ) is None
            },
        },
{
    lemma_newest_upto_maximal(versions, versions.len() as int);
}

/// The repository index fetcher injected into the update check, so that the
/// check itself needs no network access. The orchestrating layer supplies
/// an HTTP-backed implementation.
pub trait HelmRepoClient {
    fn get_helm_repo_index(&self, repo_url: &str) -> Result<HelmRepoIndex, FetchError>;
}

/// The outcome of checking a revision pinned at `pinned` for chart `chart`
/// against the catalog `ix`: the newest qualifying version where it differs
/// from the pinned revision in either direction, `None` on exact equality,
/// and the lookup failure otherwise.
pub open spec fn check_spec(pinned: Seq<char>, ix: HelmRepoIndex, chart: Seq<char>) -> Result<
    Option<Seq<char>>,
    CheckError,
> {
    match chart_versions(ix.entries@, chart) {
        None => Err(CheckError::CatalogLookupFailed(LookupError::ChartNotFound)),
        Some(vs) => match newest_qualifying(vs) {
            None => Err(CheckError::CatalogLookupFailed(LookupError::NoQualifyingVersion)),
            Some(newest) => if pinned == newest {
                Ok(None)
            } else {
                Ok(Some(newest))
            },
        },
    }
}

/// Lifts [`check_spec`]'s mathematical outcome to the executable result.
pub open spec fn check_returns(
    r: Result<Option<String>, CheckError>,
    m: Result<Option<Seq<char>>, CheckError>,
) -> bool {
    match m {
        Ok(Some(newest)) => r matches Ok(Some(v)) && v@ == newest,
        Ok(None) => r matches Ok(v) && v is None,
        Err(e) => r matches Err(a) && a == e,
    }
}

impl HelmChart {
    /// The decision step of the update check, taken on a fetch outcome: a
    /// fetch failure is surfaced as [`CheckError::FetchFailed`]; a fetched
    /// catalog is resolved to its newest qualifying version for this chart
    /// and compared with the pinned revision, reporting drift in either
    /// direction and `None` only on exact equality.
    pub fn newer_version_from_fetch(&self, fetched: Result<HelmRepoIndex, FetchError>) -> (r:
        Result<Option<String>, CheckError>)
        ensures
            fetched matches Err(e) ==> r == Err::<Option<String>, CheckError>(
                CheckError::FetchFailed(e),
            ),
            fetched matches Ok(ix) ==> check_returns(r, check_spec(self.revision@, ix, self.chart@)),
    {
        let ix = match fetched {
            Ok(ix) => ix,
            Err(e) => {
                return Err(CheckError::FetchFailed(e));
            },
        };
        let newest = match ix.get_newest_chart_version(self.chart.as_str()) {
            Ok(newest) => newest,
            Err(e) => {
                return Err(CheckError::CatalogLookupFailed(e));
            },
        };
        if self.revision == newest {
            Ok(None)
        } else {
            Ok(Some(newest))
        }
    }

    /// Fetches this chart's repository index through the injected client,
    /// exactly once, and decides against it. Whatever catalog the fetch
    /// produced, a reported version is never the pinned revision itself.
    pub fn get_newer_version<C: HelmRepoClient>(&self, client: &C) -> (r: Result<
        Option<String>,
        CheckError,
    >)
        ensures
            r matches Ok(Some(v)) ==> v@ != self.revision@,
    {
        let fetched = client.get_helm_repo_index(self.repo.as_str());
        self.newer_version_from_fetch(fetched)
    }
}

/// A successful update is idempotent: when a check reports a newer version
/// for a chart, a reference re-pinned at that reported version passes the
/// same check against the same catalog with nothing to report.
pub proof fn lemma_update_round_trip(
    pinned: Seq<char>,
    ix: HelmRepoIndex,
    chart: Seq<char>,
    newest: Seq<char>,
)
    requires
        check_spec(pinned, ix, chart) == Ok::<Option<Seq<char>>, CheckError>(Some(newest)),
    ensures
        check_spec(newest, ix, chart) == Ok::<Option<Seq<char>>, CheckError>(
            None::<Seq<char>>,
        ),
{
}

} // verus!
