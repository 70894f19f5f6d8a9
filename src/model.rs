//! The two decoded responses of the CI server and what the run reads of them.
use vstd::prelude::*;

verus! {

/// Name of the statistic that holds a build's net duration.
pub const METRIC_NAME: &'static str = "BuildDurationNetTime";

/// Why a run stopped.
pub enum SumrError {
    /// The request could not be completed; the transport's description.
    Transport(String),
    /// The body was not the expected JSON; the decoder's description.
    Decode(String),
    /// The statistics of this build hold no property of the wanted name.
    MissingMetric(u32),
}

/// Configuration of one run.
pub struct Config {
    pub username: String,
    pub password: String,
    pub base_url: String,
    pub build_id: String,
}

/// A build as the resolver lists it.
pub struct Build {
    pub id: u32,
}

/// Response of the resolver: the root build and its snapshot dependencies.
pub struct Builds {
    pub count: u32,
    pub href: String,
    pub build: Vec<Build>,
}

/// One named statistic of a build.
pub struct BuildProperties {
    pub name: String,
    pub value: u32,
}

/// Response of the statistics endpoint of one build.
pub struct BuildStatistics {
    pub property: Vec<BuildProperties>,
}

/// The identifiers of a resolver response, in response order.
pub open spec fn ids_of(builds: Seq<Build>) -> Seq<u32> {
    builds.map_values(|b: Build| b.id)
}

/// Position of the first property called `name` at or after `i`, if any.
pub open spec fn first_named_from(props: Seq<BuildProperties>, name: Seq<char>, i: int) -> Option<int>
    decreases props.len() - i,
{
    if i < 0 || i >= props.len() {
        None
    } else if props[i].name@ == name {
        Some(i)
    } else {
        first_named_from(props, name, i + 1)
    }
}

/// Value of the first property called `name`, if there is one.
pub open spec fn metric_of(props: Seq<BuildProperties>, name: Seq<char>) -> Option<u32> {
    match first_named_from(props, name, 0) {
        Some(i) => Some(props[i].value),
        None => None,
    }
}

/// `first_named_from` finds the first match after `i`, and `None` means there is none.
pub proof fn lemma_first_named_from(props: Seq<BuildProperties>, name: Seq<char>, i: int)
    requires
        0 <= i <= props.len(),
    ensures
        match first_named_from(props, name, i) {
            Some(j) => i <= j < props.len() && props[j].name@ == name
                && forall|k: int| i <= k < j ==> props[k].name@ != name,
            None => forall|k: int| i <= k < props.len() ==> props[k].name@ != name,
        },
    decreases props.len() - i,
{
    if i < props.len() && props[i].name@ != name {
        lemma_first_named_from(props, name, i + 1);
    }
}

/// Where exactly one property is called `name`, its value is the metric.
pub proof fn lemma_single_named(props: Seq<BuildProperties>, name: Seq<char>, j: int)
    requires
        0 <= j < props.len(),
        props[j].name@ == name,
        forall|k: int| 0 <= k < props.len() && k != j ==> props[k].name@ != name,
    ensures
        metric_of(props, name) == Some(props[j].value),
{
    lemma_first_named_from(props, name, 0);
}

/// Where no property is called `name`, there is no metric, and otherwise there is.
pub proof fn lemma_none_named(props: Seq<BuildProperties>, name: Seq<char>)
    ensures
        metric_of(props, name) is None <==> forall|k: int| 0 <= k < props.len() ==> props[k].name@ != name,
{
    lemma_first_named_from(props, name, 0);
}

/// Only properties called `name` are considered: adding one of another name,
/// anywhere in the list, leaves the metric as it was.
pub proof fn lemma_other_names_ignored(
    props: Seq<BuildProperties>,
    name: Seq<char>,
    extra: BuildProperties,
    i: int,
)
    requires
        0 <= i <= props.len(),
        extra.name@ != name,
    ensures
        metric_of(props.insert(i, extra), name) == metric_of(props, name),
{
    let ins = props.insert(i, extra);
    lemma_first_named_from(props, name, 0);
    lemma_first_named_from(ins, name, 0);
    assert(forall|k: int| 0 <= k < i ==> ins[k] == props[k]);
    assert(forall|k: int| i < k < ins.len() ==> ins[k] == props[k - 1]);
    match first_named_from(props, name, 0) {
        Some(j) => {
            let jj = if j < i { j } else { j + 1 };
            assert(ins[jj] == props[j]);
            match first_named_from(ins, name, 0) {
                Some(m) => {
                    if m < jj {
                        assert(m != i);
                        if m < i {
                            assert(props[m].name@ == name);
                        } else {
                            assert(props[m - 1].name@ == name);
                        }
                    }
                    assert(m == jj);
                },
                None => {},
            }
        },
        None => {
            match first_named_from(ins, name, 0) {
                Some(m) => {
                    if m < i {
                        assert(props[m].name@ == name);
                    } else if m > i {
                        assert(props[m - 1].name@ == name);
                    }
                },
                None => {},
            }
        },
    }
}

/// The identifiers of every build of a resolver response, in response order.
pub fn build_ids(builds: &Builds) -> (r: Vec<u32>)
    ensures
        r@ == ids_of(builds.build@),
{
    let mut ids: Vec<u32> = Vec::new();
    let mut i: usize = 0;
    while i < builds.build.len()
        invariant
            i <= builds.build@.len(),
            ids@ == ids_of(builds.build@.subrange(0, i as int)),
        decreases builds.build@.len() - i,
    {
        ids.push(builds.build[i].id);
        i = i + 1;
        assert(ids_of(builds.build@.subrange(0, i as int)) =~= ids_of(
            builds.build@.subrange(0, i - 1 as int),
        ).push(builds.build@[i - 1].id));
    }
    assert(builds.build@.subrange(0, i as int) =~= builds.build@);
    ids
}

/// Value of the first property called `name` in a statistics response, or
/// `MissingMetric(id)` where none is called so.
pub fn metric_value(stats: &BuildStatistics, id: u32, name: &str) -> (r: Result<u32, SumrError>)
    ensures
        r is Err <==> forall|k: int|
            0 <= k < stats.property@.len() ==> stats.property@[k].name@ != name@,
        match metric_of(stats.property@, name@) {
            Some(v) => r == Ok::<u32, SumrError>(v),
            None => r == Err::<u32, SumrError>(SumrError::MissingMetric(id)),
        },
{
    proof {
        lemma_first_named_from(stats.property@, name@, 0);
    }
    let wanted = name.to_owned();
    let mut i: usize = 0;
    while i < stats.property.len()
        invariant
            i <= stats.property@.len(),
            wanted@ == name@,
            first_named_from(stats.property@, name@, 0) == first_named_from(
                stats.property@,
                name@,
                i as int,
            ),
        decreases stats.property@.len() - i,
    {
        if stats.property[i].name == wanted {
            return Ok(stats.property[i].value);
        }
        i = i + 1;
    }
    Err(SumrError::MissingMetric(id))
}

/// Net duration of a build: its first `BuildDurationNetTime` statistic.
pub fn build_time(stats: &BuildStatistics, id: u32) -> (r: Result<u32, SumrError>)
    ensures
        r is Err <==> forall|k: int|
            0 <= k < stats.property@.len() ==> stats.property@[k].name@ != METRIC_NAME@,
        match metric_of(stats.property@, METRIC_NAME@) {
            Some(v) => r == Ok::<u32, SumrError>(v),
            None => r == Err::<u32, SumrError>(SumrError::MissingMetric(id)),
        },
{
    metric_value(stats, id, METRIC_NAME)
}

} // verus!
