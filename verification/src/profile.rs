//! The owner's profile page: its records, and how the job rows read from the
//! database are grouped by company.

use vstd::prelude::*;

use indexmap::IndexMap;

verus! {

/// Everything the profile page shows.
#[derive(Debug, Clone, PartialEq, Eq)]
pub struct Profile {
    pub image_url: String,
    pub about_me: Vec<String>,
    pub skills: Skills,
    pub projects: Vec<Projects>,
    pub job_experience: Vec<JobExperience>,
}

/// Skills, by kind.
#[derive(Debug, Clone, PartialEq, Eq)]
pub struct Skills {
    pub languages: Vec<String>,
    pub tools: Vec<String>,
    pub frameworks: Vec<String>,
    pub others: Vec<String>,
}

/// The jobs held at one company, in the order they were listed.
#[derive(Debug, Clone, PartialEq, Eq)]
pub struct JobExperience {
    pub company_name: String,
    pub company_url: String,
    pub job_in_company: Vec<JobInCompany>,
}

/// One job at a company.
#[derive(Debug, Clone, PartialEq, Eq)]
pub struct JobInCompany {
    pub job_title: String,
    pub time_span: String,
    pub description: Option<Vec<String>>,
}

/// One project.
#[derive(Debug, Clone, PartialEq, Eq)]
pub struct Projects {
    pub project_name: String,
    pub project_url: String,
    pub description: Vec<String>,
}

/// One row of the jobs table: a job together with its company.
#[derive(Debug, Clone, PartialEq, Eq)]
pub struct JobInfo {
    pub company_name: String,
    pub company_url: String,
    pub job_title: String,
    pub time_span: String,
    pub description: Option<Vec<String>>,
}

/// Where the profile picture is kept, and how long a link to it stays valid.
#[derive(Debug, Clone, PartialEq, Eq)]
pub struct ImageObject {
    pub bucket: String,
    pub key: String,
    pub expires_in_secs: u64,
}

/// The text of each line.
pub open spec fn lines_view(v: Vec<String>) -> Seq<Seq<char>> {
    v@.map_values(|s: String| s@)
}

/// The text of each line, when there are lines.
pub open spec fn opt_lines_view(o: Option<Vec<String>>) -> Option<Seq<Seq<char>>> {
    match o {
        Some(v) => Some(lines_view(v)),
        None => None,
    }
}

/// A job, as text.
pub struct JobInCompanyView {
    pub job_title: Seq<char>,
    pub time_span: Seq<char>,
    pub description: Option<Seq<Seq<char>>>,
}

/// A company and its jobs, as text.
pub struct JobExperienceView {
    pub company_name: Seq<char>,
    pub company_url: Seq<char>,
    pub jobs: Seq<JobInCompanyView>,
}

/// A row of the jobs table, as text.
pub struct JobInfoView {
    pub company_name: Seq<char>,
    pub company_url: Seq<char>,
    pub job_title: Seq<char>,
    pub time_span: Seq<char>,
    pub description: Option<Seq<Seq<char>>>,
}

impl View for JobInCompany {
    type V = JobInCompanyView;

    open spec fn view(&self) -> JobInCompanyView {
        JobInCompanyView {
            job_title: self.job_title@,
            time_span: self.time_span@,
            description: opt_lines_view(self.description),
        }
    }
}

impl View for JobExperience {
    type V = JobExperienceView;

    open spec fn view(&self) -> JobExperienceView {
        JobExperienceView {
            company_name: self.company_name@,
            company_url: self.company_url@,
            jobs: self.job_in_company@.map_values(|j: JobInCompany| j@),
        }
    }
}

impl View for JobInfo {
    type V = JobInfoView;

    open spec fn view(&self) -> JobInfoView {
        JobInfoView {
            company_name: self.company_name@,
            company_url: self.company_url@,
            job_title: self.job_title@,
            time_span: self.time_span@,
            description: opt_lines_view(self.description),
        }
    }
}

/// The rows, as text.
pub open spec fn rows_view(rows: Seq<JobInfo>) -> Seq<JobInfoView> {
    rows.map_values(|r: JobInfo| r@)
}

/// The companies, as text.
pub open spec fn experience_view(groups: Seq<JobExperience>) -> Seq<JobExperienceView> {
    groups.map_values(|e: JobExperience| e@)
}

/// The job a row describes.
pub open spec fn job_of(r: JobInfoView) -> JobInCompanyView {
    JobInCompanyView { job_title: r.job_title, time_span: r.time_span, description: r.description }
}

/// The position of the company named `name` among `groups`, if it is there
/// (the last such position, should the name occur twice).
pub open spec fn company_slot(groups: Seq<JobExperienceView>, name: Seq<char>) -> Option<int>
    decreases groups.len(),
{
    if groups.len() == 0 {
        None
    } else if groups.last().company_name == name {
        Some(groups.len() - 1)
    } else {
        company_slot(groups.drop_last(), name)
    }
}

/// `groups` after one more row: the row's job joins its company, or opens
/// a new company at the end when none of that name is there yet.
pub open spec fn add_job_row(groups: Seq<JobExperienceView>, r: JobInfoView) -> Seq<
    JobExperienceView,
> {
    match company_slot(groups, r.company_name) {
        Some(i) => groups.update(
            i,
            JobExperienceView {
                company_name: groups[i].company_name,
                company_url: groups[i].company_url,
                jobs: groups[i].jobs.push(job_of(r)),
            },
        ),
        None => groups.push(
            JobExperienceView {
                company_name: r.company_name,
                company_url: r.company_url,
                jobs: seq![job_of(r)],
            },
        ),
    }
}

/// The jobs of `rows`, grouped by company: companies in the order of their
/// first row, each with the jobs of its rows in row order, and the web
/// address given by its first row.
pub open spec fn group_by_company(rows: Seq<JobInfoView>) -> Seq<JobExperienceView>
    decreases rows.len(),
{
    if rows.len() == 0 {
        Seq::empty()
    } else {
        add_job_row(group_by_company(rows.drop_last()), rows.last())
    }
}

// --- The companies seen so far, kept in an `IndexMap` by name. ---

/// Declares `indexmap::IndexMap` to Verus; its values are opaque, and what a
/// map of companies holds is named by `company_entries`.
#[verifier::external_type_specification]
#[verifier::external_body]
#[verifier::reject_recursive_types(K)]
#[verifier::reject_recursive_types(V)]
#[verifier::reject_recursive_types(S)]
pub struct ExIndexMap<K, V, S>(IndexMap<K, V, S>);

/// The entries of a map of companies, in the map's order: each company
/// name with the company's jobs, as text.
pub uninterp spec fn company_entries(m: IndexMap<String, JobExperience>) -> Seq<
    (Seq<char>, JobExperienceView),
>;

/// No two entries share a key.
pub open spec fn keys_distinct(entries: Seq<(Seq<char>, JobExperienceView)>) -> bool {
    forall|i: int, j: int| 0 <= i < j < entries.len() ==> entries[i].0 != entries[j].0
}

/// The values of the entries, in order.
pub open spec fn entry_values(entries: Seq<(Seq<char>, JobExperienceView)>) -> Seq<
    JobExperienceView,
> {
    entries.map_values(|e: (Seq<char>, JobExperienceView)| e.1)
}

/// Calls `IndexMap::new`, which makes a map with no entries.
#[verifier::external_body]
fn companies_new() -> (m: IndexMap<String, JobExperience>)
    ensures
        company_entries(m) == Seq::<(Seq<char>, JobExperienceView)>::empty(),
{
    IndexMap::new()
}

/// Calls `IndexMap::get`: the value stored under a key equal to `name`, or
/// `None` when no entry has that key.
#[verifier::external_body]
fn companies_get<'a>(m: &'a IndexMap<String, JobExperience>, name: &str) -> (r: Option<
    &'a JobExperience,
>)
    ensures
        r is None <==> (forall|i: int|
            0 <= i < company_entries(*m).len() ==> company_entries(*m)[i].0 != name@),
        r matches Some(v) ==> exists|i: int|
            0 <= i < company_entries(*m).len() && company_entries(*m)[i].0 == name@
                && company_entries(*m)[i].1 == v@,
{
    m.get(name)
}

/// Calls `IndexMap::insert`. A new key is added last; an existing key keeps
/// its place and gets the new value, and its old value is returned. Keys
/// stay distinct.
#[verifier::external_body]
fn companies_insert(m: &mut IndexMap<String, JobExperience>, name: String, v: JobExperience) -> (previous:
    Option<JobExperience>)
    ensures
        keys_distinct(company_entries(*old(m))) ==> keys_distinct(company_entries(*final(m))),
        (forall|i: int|
            0 <= i < company_entries(*old(m)).len() ==> company_entries(*old(m))[i].0 != name@)
            ==> company_entries(*final(m)) == company_entries(*old(m)).push((name@, v@))
            && previous is None,
        forall|i: int|
            0 <= i < company_entries(*old(m)).len() && (#[trigger] company_entries(*old(m))[i]).0
                == name@ && keys_distinct(company_entries(*old(m))) ==> company_entries(*final(m))
                == company_entries(*old(m)).update(i, (name@, v@)) && (previous matches Some(p)
                && p@ == company_entries(*old(m))[i].1),
{
    m.insert(name, v)
}

/// Calls `IndexMap::into_values` and collects the values, in the map's
/// order.
#[verifier::external_body]
fn companies_into_values(m: IndexMap<String, JobExperience>) -> (r: Vec<JobExperience>)
    ensures
        r@.map_values(|e: JobExperience| e@) == entry_values(company_entries(m)),
{
    m.into_values().collect()
}

// --- Lemmas about grouping. ---

/// No two companies share a name.
pub open spec fn names_distinct(groups: Seq<JobExperienceView>) -> bool {
    forall|i: int, j: int|
        0 <= i < j < groups.len() ==> groups[i].company_name != groups[j].company_name
}

/// Rows of the company named `name`.
pub open spec fn at_company(name: Seq<char>) -> spec_fn(JobInfoView) -> bool {
    |r: JobInfoView| r.company_name == name
}

/// The jobs of the rows of the company named `name`, in row order.
pub open spec fn jobs_at(rows: Seq<JobInfoView>, name: Seq<char>) -> Seq<JobInCompanyView> {
    rows.filter(at_company(name)).map_values(|r: JobInfoView| job_of(r))
}

/// Some row names the company `name`.
pub open spec fn has_row_of(rows: Seq<JobInfoView>, name: Seq<char>) -> bool {
    exists|i: int| 0 <= i < rows.len() && rows[i].company_name == name
}

/// Some company in `groups` is named `name`.
pub open spec fn has_group_of(groups: Seq<JobExperienceView>, name: Seq<char>) -> bool {
    exists|k: int| 0 <= k < groups.len() && groups[k].company_name == name
}

/// Row `i` is the first row of its company.
pub open spec fn is_first_row(rows: Seq<JobInfoView>, i: int) -> bool {
    &&& 0 <= i < rows.len()
    &&& forall|j: int| 0 <= j < i ==> rows[j].company_name != rows[i].company_name
}

proof fn lemma_company_slot(groups: Seq<JobExperienceView>, name: Seq<char>)
    ensures
        match company_slot(groups, name) {
            Some(i) => 0 <= i < groups.len() && groups[i].company_name == name,
            None => !has_group_of(groups, name),
        },
    decreases groups.len(),
{
    if groups.len() > 0 && groups.last().company_name != name {
        lemma_company_slot(groups.drop_last(), name);
        if company_slot(groups, name) is None {
            assert forall|k: int| 0 <= k < groups.len() implies groups[k].company_name
                != name by {
                if k < groups.len() - 1 {
                    assert(groups.drop_last()[k] == groups[k]);
                }
            }
        }
    }
}

proof fn lemma_company_slot_unique(groups: Seq<JobExperienceView>, name: Seq<char>, k: int)
    requires
        names_distinct(groups),
        0 <= k < groups.len(),
        groups[k].company_name == name,
    ensures
        company_slot(groups, name) == Some(k),
{
    lemma_company_slot(groups, name);
}

proof fn lemma_filter_push(s: Seq<JobInfoView>, p: spec_fn(JobInfoView) -> bool, e: JobInfoView)
    ensures
        p(e) ==> s.push(e).filter(p) == s.filter(p).push(e),
        !p(e) ==> s.push(e).filter(p) == s.filter(p),
{
    reveal(Seq::filter);
    assert(s.push(e).drop_last() =~= s);
}

proof fn lemma_filter_none(s: Seq<JobInfoView>, p: spec_fn(JobInfoView) -> bool)
    requires
        forall|i: int| 0 <= i < s.len() ==> !p(s[i]),
    ensures
        s.filter(p) == Seq::<JobInfoView>::empty(),
    decreases s.len(),
{
    reveal(Seq::filter);
    if s.len() > 0 {
        lemma_filter_none(s.drop_last(), p);
    }
}

proof fn lemma_jobs_at_push(rows: Seq<JobInfoView>, r: JobInfoView, name: Seq<char>)
    ensures
        r.company_name == name ==> jobs_at(rows.push(r), name) == jobs_at(rows, name).push(
            job_of(r),
        ),
        r.company_name != name ==> jobs_at(rows.push(r), name) == jobs_at(rows, name),
{
    lemma_filter_push(rows, at_company(name), r);
    let f = |x: JobInfoView| job_of(x);
    if r.company_name == name {
        assert(rows.filter(at_company(name)).push(r).map_values(f) =~= rows.filter(
            at_company(name),
        ).map_values(f).push(job_of(r)));
    }
}

/// The first row of the company named `name` gives the web address `url`.
pub open spec fn first_row_gives(rows: Seq<JobInfoView>, name: Seq<char>, url: Seq<char>) -> bool {
    exists|i: int|
        #![trigger rows[i]]
        is_first_row(rows, i) && rows[i].company_name == name && rows[i].company_url == url
}

/// Some row before row `j` names the company `name`.
pub open spec fn named_before(rows: Seq<JobInfoView>, name: Seq<char>, j: int) -> bool {
    exists|i: int| #![trigger rows[i]] 0 <= i < j && i < rows.len() && rows[i].company_name == name
}

/// What holds of `group_by_company(rows)` for every `rows`; the laws below
/// are its parts.
pub open spec fn grouping_facts(rows: Seq<JobInfoView>, groups: Seq<JobExperienceView>) -> bool {
    &&& names_distinct(groups)
    &&& forall|name: Seq<char>| has_group_of(groups, name) <==> has_row_of(rows, name)
    &&& forall|k: int|
        0 <= k < groups.len() ==> #[trigger] groups[k].jobs == jobs_at(
            rows,
            groups[k].company_name,
        )
    &&& forall|k: int|
        #![trigger groups[k]]
        0 <= k < groups.len() ==> first_row_gives(
            rows,
            groups[k].company_name,
            groups[k].company_url,
        )
    &&& forall|k1: int, k2: int, j: int|
        #![trigger groups[k1], groups[k2], rows[j]]
        0 <= k1 < k2 < groups.len() && 0 <= j < rows.len() && rows[j].company_name
            == groups[k2].company_name ==> named_before(rows, groups[k1].company_name, j)
}

proof fn lemma_grouping(rows: Seq<JobInfoView>)
    ensures
        grouping_facts(rows, group_by_company(rows)),
    decreases rows.len(),
{
    if rows.len() == 0 {
        let groups = group_by_company(rows);
        assert(groups.len() == 0);
        assert forall|name: Seq<char>| has_group_of(groups, name) <==> has_row_of(
            rows,
            name,
        ) by {}
    } else {
        let prev = rows.drop_last();
        let r = rows.last();
        lemma_grouping(prev);
        let g = group_by_company(prev);
        let g2 = group_by_company(rows);
        assert(rows == prev.push(r));
        assert(g2 == add_job_row(g, r));
        lemma_company_slot(g, r.company_name);
        assert forall|i: int| 0 <= i < prev.len() implies rows[i] == prev[i] by {}
        assert forall|name: Seq<char>| has_row_of(rows, name) <==> (has_row_of(prev, name)
            || r.company_name == name) by {
            if has_row_of(rows, name) {
                let i = choose|i: int| 0 <= i < rows.len() && rows[i].company_name == name;
                if i < prev.len() {
                    assert(prev[i] == rows[i]);
                }
            }
            if has_row_of(prev, name) {
                let i = choose|i: int| 0 <= i < prev.len() && prev[i].company_name == name;
                assert(rows[i] == prev[i]);
            }
            if r.company_name == name {
                assert(rows[rows.len() - 1] == r);
            }
        }
        // A first row of `prev` stays a first row of `rows`.
        assert forall|name: Seq<char>, url: Seq<char>| first_row_gives(prev, name, url)
            implies first_row_gives(rows, name, url) by {
            let i = choose|i: int|
                #![trigger prev[i]]
                is_first_row(prev, i) && prev[i].company_name == name && prev[i].company_url
                    == url;
            assert(rows[i] == prev[i]);
            assert forall|j: int| 0 <= j < i implies rows[j].company_name
                != rows[i].company_name by {
                assert(rows[j] == prev[j]);
            }
            assert(is_first_row(rows, i));
        }
        // A name seen before position `j` of `prev` is seen before it in `rows`.
        assert forall|name: Seq<char>, j: int| named_before(prev, name, j) implies named_before(
            rows,
            name,
            j,
        ) by {
            let i = choose|i: int| #![trigger prev[i]] 0 <= i < j && i < prev.len() && prev[i].company_name == name;
            assert(rows[i] == prev[i]);
        }
        // A company of `prev` occurs before the last row.
        assert forall|name: Seq<char>| has_row_of(prev, name) implies named_before(
            rows,
            name,
            prev.len() as int,
        ) by {
            let i = choose|i: int| 0 <= i < prev.len() && prev[i].company_name == name;
            assert(rows[i] == prev[i]);
        }
        match company_slot(g, r.company_name) {
            Some(s) => {
                assert(g2.len() == g.len());
                assert forall|k: int| 0 <= k < g2.len() implies g2[k].company_name
                    == g[k].company_name && g2[k].company_url == g[k].company_url by {}
                assert forall|name: Seq<char>| has_group_of(g2, name) <==> has_group_of(
                    g,
                    name,
                ) by {
                    if has_group_of(g2, name) {
                        let k = choose|k: int| 0 <= k < g2.len() && g2[k].company_name == name;
                        assert(g[k].company_name == name);
                    }
                    if has_group_of(g, name) {
                        let k = choose|k: int| 0 <= k < g.len() && g[k].company_name == name;
                        assert(g2[k].company_name == name);
                    }
                }
                assert(has_group_of(g, r.company_name));
                assert forall|k: int| 0 <= k < g2.len() implies #[trigger] g2[k].jobs == jobs_at(
                    rows,
                    g2[k].company_name,
                ) by {
                    lemma_jobs_at_push(prev, r, g2[k].company_name);
                    assert(g[k].jobs == jobs_at(prev, g[k].company_name));
                }
                assert forall|k: int| #![trigger g2[k]] 0 <= k < g2.len() implies first_row_gives(
                    rows,
                    g2[k].company_name,
                    g2[k].company_url,
                ) by {
                    assert(first_row_gives(prev, g[k].company_name, g[k].company_url));
                }
                assert forall|k1: int, k2: int, j: int|
                    #![trigger g2[k1], g2[k2], rows[j]]
                    0 <= k1 < k2 < g2.len() && 0 <= j < rows.len() && rows[j].company_name
                        == g2[k2].company_name implies named_before(
                    rows,
                    g2[k1].company_name,
                    j,
                ) by {
                    if j < prev.len() {
                        assert(rows[j] == prev[j]);
                        assert(g[k1].company_name == g2[k1].company_name && prev[j].company_name
                            == g[k2].company_name);
                        assert(named_before(prev, g[k1].company_name, j));
                    } else {
                        assert(has_group_of(g, g[k1].company_name));
                    }
                }
            },
            None => {
                assert(!has_row_of(prev, r.company_name));
                let n = g.len() as int;
                assert(g2.len() == n + 1);
                assert forall|k: int| 0 <= k < n implies g2[k] == g[k] by {}
                assert forall|name: Seq<char>| has_group_of(g2, name) <==> (has_group_of(g, name)
                    || r.company_name == name) by {
                    if has_group_of(g2, name) {
                        let k = choose|k: int| 0 <= k < g2.len() && g2[k].company_name == name;
                        if k < n {
                            assert(g[k].company_name == name);
                        }
                    }
                    if has_group_of(g, name) {
                        let k = choose|k: int| 0 <= k < g.len() && g[k].company_name == name;
                        assert(g2[k].company_name == name);
                    }
                    if r.company_name == name {
                        assert(g2[n].company_name == name);
                    }
                }
                assert forall|k: int| 0 <= k < g2.len() implies #[trigger] g2[k].jobs == jobs_at(
                    rows,
                    g2[k].company_name,
                ) by {
                    lemma_jobs_at_push(prev, r, g2[k].company_name);
                    if k == n {
                        assert forall|i: int| 0 <= i < prev.len() implies !at_company(
                            r.company_name,
                        )(prev[i]) by {}
                        lemma_filter_none(prev, at_company(r.company_name));
                        assert(jobs_at(prev, r.company_name) =~= Seq::<JobInCompanyView>::empty());
                        assert(g2[k].jobs =~= jobs_at(rows, r.company_name));
                    } else {
                        assert(g[k].jobs == jobs_at(prev, g[k].company_name));
                        assert(g[k].company_name != r.company_name);
                    }
                }
                assert forall|k: int| #![trigger g2[k]] 0 <= k < g2.len() implies first_row_gives(
                    rows,
                    g2[k].company_name,
                    g2[k].company_url,
                ) by {
                    if k == n {
                        let i = prev.len() as int;
                        assert(rows[i] == r);
                        assert forall|j: int| 0 <= j < i implies rows[j].company_name
                            != rows[i].company_name by {
                            assert(rows[j] == prev[j]);
                        }
                        assert(is_first_row(rows, i));
                    } else {
                        assert(first_row_gives(prev, g[k].company_name, g[k].company_url));
                    }
                }
                assert forall|k1: int, k2: int, j: int|
                    #![trigger g2[k1], g2[k2], rows[j]]
                    0 <= k1 < k2 < g2.len() && 0 <= j < rows.len() && rows[j].company_name
                        == g2[k2].company_name implies named_before(
                    rows,
                    g2[k1].company_name,
                    j,
                ) by {
                    assert(g2[k1] == g[k1]);
                    assert(has_group_of(g, g[k1].company_name));
                    if j < prev.len() {
                        assert(rows[j] == prev[j]);
                        if k2 < n {
                            assert(g2[k2] == g[k2]);
                            assert(prev[j].company_name == g[k2].company_name);
                            assert(named_before(prev, g[k1].company_name, j));
                        } else {
                            assert(has_row_of(prev, r.company_name));
                        }
                    }
                }
            },
        }
    }
}

/// Grouping by company: no two companies share a name.
pub proof fn law_companies_distinct(rows: Seq<JobInfoView>)
    ensures
        names_distinct(group_by_company(rows)),
{
    lemma_grouping(rows);
}

/// Grouping by company: a company is listed exactly when some row names it.
pub proof fn law_every_company_listed(rows: Seq<JobInfoView>, name: Seq<char>)
    ensures
        has_group_of(group_by_company(rows), name) <==> has_row_of(rows, name),
{
    lemma_grouping(rows);
}

/// Grouping by company: each company holds exactly the jobs of its rows,
/// in row order, so no job is lost, duplicated or moved to another company.
pub proof fn law_jobs_kept_in_order(rows: Seq<JobInfoView>, k: int)
    requires
        0 <= k < group_by_company(rows).len(),
    ensures
        group_by_company(rows)[k].jobs == jobs_at(rows, group_by_company(rows)[k].company_name),
{
    lemma_grouping(rows);
}

/// Grouping by company: a company's web address is the one its first row
/// gives.
pub proof fn law_address_from_first_row(rows: Seq<JobInfoView>, k: int)
    requires
        0 <= k < group_by_company(rows).len(),
    ensures
        first_row_gives(
            rows,
            group_by_company(rows)[k].company_name,
            group_by_company(rows)[k].company_url,
        ),
{
    lemma_grouping(rows);
}

/// The number of jobs over all companies.
pub open spec fn total_jobs(groups: Seq<JobExperienceView>) -> nat
    decreases groups.len(),
{
    if groups.len() == 0 {
        0
    } else {
        total_jobs(groups.drop_last()) + groups.last().jobs.len()
    }
}

proof fn lemma_total_jobs_update(groups: Seq<JobExperienceView>, i: int, e: JobExperienceView)
    requires
        0 <= i < groups.len(),
    ensures
        total_jobs(groups.update(i, e)) == total_jobs(groups) - groups[i].jobs.len() + e.jobs.len(),
    decreases groups.len(),
{
    let u = groups.update(i, e);
    if i == groups.len() - 1 {
        assert(u.drop_last() =~= groups.drop_last());
    } else {
        assert(u.drop_last() =~= groups.drop_last().update(i, e));
        lemma_total_jobs_update(groups.drop_last(), i, e);
    }
}

/// Grouping by company: the companies hold as many jobs in all as there
/// are rows.
pub proof fn law_job_count_kept(rows: Seq<JobInfoView>)
    ensures
        total_jobs(group_by_company(rows)) == rows.len(),
    decreases rows.len(),
{
    if rows.len() > 0 {
        let prev = rows.drop_last();
        let r = rows.last();
        law_job_count_kept(prev);
        let g = group_by_company(prev);
        lemma_company_slot(g, r.company_name);
        match company_slot(g, r.company_name) {
            Some(i) => {
                let e = JobExperienceView {
                    company_name: g[i].company_name,
                    company_url: g[i].company_url,
                    jobs: g[i].jobs.push(job_of(r)),
                };
                lemma_total_jobs_update(g, i, e);
            },
            None => {
                let e = JobExperienceView {
                    company_name: r.company_name,
                    company_url: r.company_url,
                    jobs: seq![job_of(r)],
                };
                assert(g.push(e).drop_last() =~= g);
            },
        }
    }
}

/// Grouping by company: companies come in the order of their first rows;
/// every row of a later company comes after some row of each earlier one.
pub proof fn law_first_appearance_order(rows: Seq<JobInfoView>, k1: int, k2: int, j: int)
    requires
        0 <= k1 < k2 < group_by_company(rows).len(),
        0 <= j < rows.len(),
        rows[j].company_name == group_by_company(rows)[k2].company_name,
    ensures
        named_before(rows, group_by_company(rows)[k1].company_name, j),
{
    lemma_grouping(rows);
    let g = group_by_company(rows);
    assert(rows[j].company_name == g[k2].company_name && has_group_of(g, g[k1].company_name));
}

fn clone_lines(v: &Vec<String>) -> (r: Vec<String>)
    ensures
        r@ == v@,
{
    let mut r: Vec<String> = Vec::new();
    let mut i: usize = 0;
    while i < v.len()
        invariant
            i <= v.len(),
            r@ == v@.take(i as int),
        decreases v.len() - i,
    {
        r.push(v[i].clone());
        i += 1;
        assert(r@ =~= v@.take(i as int));
    }
    assert(v@.take(v.len() as int) =~= v@);
    r
}

fn clone_description(d: &Option<Vec<String>>) -> (r: Option<Vec<String>>)
    ensures
        opt_lines_view(r) == opt_lines_view(*d),
{
    match d {
        Some(v) => Some(clone_lines(v)),
        None => None,
    }
}

fn job_from_row(row: &JobInfo) -> (j: JobInCompany)
    ensures
        j@ == job_of(row@),
{
    JobInCompany {
        job_title: row.job_title.clone(),
        time_span: row.time_span.clone(),
        description: clone_description(&row.description),
    }
}

fn clone_job(j: &JobInCompany) -> (r: JobInCompany)
    ensures
        r@ == j@,
{
    JobInCompany {
        job_title: j.job_title.clone(),
        time_span: j.time_span.clone(),
        description: clone_description(&j.description),
    }
}

fn clone_experience(e: &JobExperience) -> (r: JobExperience)
    ensures
        r@ == e@,
{
    let mut jobs: Vec<JobInCompany> = Vec::new();
    let mut i: usize = 0;
    while i < e.job_in_company.len()
        invariant
            i <= e.job_in_company.len(),
            jobs.len() == i,
            forall|k: int| 0 <= k < i ==> #[trigger] jobs@[k]@ == e.job_in_company@[k]@,
        decreases e.job_in_company.len() - i,
    {
        jobs.push(clone_job(&e.job_in_company[i]));
        i += 1;
    }
    assert(jobs@.map_values(|j: JobInCompany| j@) =~= e.job_in_company@.map_values(
        |j: JobInCompany| j@,
    ));
    JobExperience {
        company_name: e.company_name.clone(),
        company_url: e.company_url.clone(),
        job_in_company: jobs,
    }
}

/// Groups the rows of the jobs table by company: companies in the order of
/// their first row, each with the jobs of its rows in row order and the web
/// address of its first row.
pub fn jobs_by_company(rows: Vec<JobInfo>) -> (res: Vec<JobExperience>)
    ensures
        experience_view(res@) == group_by_company(rows_view(rows@)),
{
    let ghost rv = rows_view(rows@);
    let mut companies = companies_new();
    let mut i: usize = 0;
    assert(rv.take(0) =~= Seq::<JobInfoView>::empty());
    assert(entry_values(company_entries(companies)) =~= Seq::<JobExperienceView>::empty());
    while i < rows.len()
        invariant
            i <= rows.len(),
            rv == rows_view(rows@),
            entry_values(company_entries(companies)) == group_by_company(rv.take(i as int)),
            keys_distinct(company_entries(companies)),
            forall|k: int|
                0 <= k < company_entries(companies).len() ==> #[trigger] company_entries(
                    companies,
                )[k].0 == company_entries(companies)[k].1.company_name,
        decreases rows.len() - i,
    {
        let ghost entries = company_entries(companies);
        let ghost g = entry_values(entries);
        proof {
            lemma_grouping(rv.take(i as int));
            assert(rv.take(i + 1).drop_last() =~= rv.take(i as int));
            assert(rv.take(i + 1).last() == rows@[i as int]@);
        }
        let row = &rows[i];
        let ghost name = row.company_name@;
        match companies_get(&companies, row.company_name.as_str()) {
            Some(e) => {
                proof {
                    let j = choose|j: int|
                        0 <= j < entries.len() && entries[j].0 == name && entries[j].1 == e@;
                    assert(g[j] == entries[j].1);
                    lemma_company_slot_unique(g, name, j);
                }
                let mut updated = clone_experience(e);
                let ghost old_jobs = updated.job_in_company@;
                updated.job_in_company.push(job_from_row(row));
                proof {
                    let j = choose|j: int|
                        0 <= j < entries.len() && entries[j].0 == name && entries[j].1 == e@;
                    assert(updated.job_in_company@ =~= old_jobs.push(updated.job_in_company@.last()));
                    assert(updated@.jobs =~= e@.jobs.push(job_of(row@)));
                    assert(updated@ == (JobExperienceView {
                        company_name: g[j].company_name,
                        company_url: g[j].company_url,
                        jobs: g[j].jobs.push(job_of(row@)),
                    }));
                }
                let ghost updated_view = updated@;
                companies_insert(&mut companies, row.company_name.clone(), updated);
                proof {
                    let j = choose|j: int|
                        0 <= j < entries.len() && entries[j].0 == name && entries[j].1 == e@;
                    assert(entries[j].0 == name);
                    assert(company_entries(companies) == entries.update(j, (name, updated_view)));
                    assert(entry_values(company_entries(companies)) =~= add_job_row(g, row@));
                    assert forall|k: int| 0 <= k < company_entries(companies).len() implies #[trigger] company_entries(
                        companies,
                    )[k].0 == company_entries(companies)[k].1.company_name by {
                        if k != j {
                            assert(company_entries(companies)[k] == entries[k]);
                        }
                    }
                }
            },
            None => {
                proof {
                    assert forall|k: int| 0 <= k < g.len() implies g[k].company_name != name by {
                        assert(entries[k].0 == entries[k].1.company_name);
                    }
                    lemma_company_slot(g, name);
                }
                let job = job_from_row(row);
                let entry = JobExperience {
                    company_name: row.company_name.clone(),
                    company_url: row.company_url.clone(),
                    job_in_company: vec![job],
                };
                proof {
                    assert(entry@.jobs =~= seq![job_of(row@)]);
                }
                companies_insert(&mut companies, row.company_name.clone(), entry);
                proof {
                    assert(entry_values(company_entries(companies)) =~= add_job_row(g, row@));
                    assert forall|k: int| 0 <= k < company_entries(companies).len() implies #[trigger] company_entries(
                        companies,
                    )[k].0 == company_entries(companies)[k].1.company_name by {
                        if k < entries.len() {
                            assert(company_entries(companies)[k] == entries[k]);
                        }
                    }
                }
            },
        }
        i += 1;
    }
    assert(rv.take(rows.len() as int) =~= rv);
    let res = companies_into_values(companies);
    proof {
        assert(experience_view(res@) =~= res@.map_values(|e: JobExperience| e@));
    }
    res
}

/// The stored picture shown on the profile page, and how long a link to it
/// stays valid: one hour.
pub fn profile_image_object() -> (r: ImageObject)
    ensures
        r.bucket@ == "misc"@,
        r.key@ == "profile.jpg"@,
        r.expires_in_secs == 3600,
{
    ImageObject { bucket: "misc".to_string(), key: "profile.jpg".to_string(), expires_in_secs: 60 * 60 }
}

} // verus!
