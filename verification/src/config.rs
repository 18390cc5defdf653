//! The declarative description of what to export: one query
//! per metric, plus the database settings they run against.

use vstd::prelude::*;

verus! {

/// The kinds of metric a query can ask for.
#[derive(Debug, Clone, Copy, PartialEq, Eq, Structural)]
pub enum MetricType {
    Gauge,
}

/// The texts of a list of strings, in order.
pub open spec fn texts(v: Seq<String>) -> Seq<Seq<char>> {
    Seq::new(v.len(), |i: int| v[i]@)
}

/// One metric to produce: the query to run and how its rows map to samples.
#[derive(Debug)]
pub struct QueryConfig {
    pub name: String,
    pub help: String,
    pub query: String,
    pub value_column: String,
    pub label_columns: Vec<String>,
    pub metric_type: MetricType,
}

/// The mathematical content of a [`QueryConfig`].
pub ghost struct QuerySpec {
    pub name: Seq<char>,
    pub help: Seq<char>,
    pub query: Seq<char>,
    pub value_column: Seq<char>,
    pub label_columns: Seq<Seq<char>>,
    pub metric_type: MetricType,
}

impl QuerySpec {
    /// An unlabeled query drives a single gauge; a labeled one drives
    /// a family of gauges.
    pub open spec fn is_scalar(self) -> bool {
        self.label_columns.len() == 0
    }
}

impl View for QueryConfig {
    type V = QuerySpec;

    open spec fn view(&self) -> QuerySpec {
        QuerySpec {
            name: self.name@,
            help: self.help@,
            query: self.query@,
            value_column: self.value_column@,
            label_columns: texts(self.label_columns@),
            metric_type: self.metric_type,
        }
    }
}

/// The queries of a list of configurations, in order.
pub open spec fn specs(v: Seq<QueryConfig>) -> Seq<QuerySpec> {
    Seq::new(v.len(), |i: int| v[i]@)
}

/// Copies a list of strings.
pub fn clone_strings(v: &Vec<String>) -> (r: Vec<String>)
    ensures
        texts(r@) == texts(v@),
{
    let mut out: Vec<String> = Vec::new();
    let mut i: usize = 0;
    while i < v.len()
        invariant
            i <= v.len(),
            out.len() == i,
            forall|j: int| 0 <= j < i ==> out[j]@ == v[j]@,
        decreases v.len() - i,
    {
        out.push(v[i].clone());
        i += 1;
    }
    assert(texts(out@) =~= texts(v@));
    out
}

impl Clone for QueryConfig {
    fn clone(&self) -> (r: Self)
        ensures
            r@ == self@,
    {
        QueryConfig {
            name: self.name.clone(),
            help: self.help.clone(),
            query: self.query.clone(),
            value_column: self.value_column.clone(),
            label_columns: clone_strings(&self.label_columns),
            metric_type: self.metric_type,
        }
    }
}

/// How to reach the database.
#[derive(Debug)]
pub struct DatabaseConfig {
    pub user: String,
    pub password: String,
    pub host: String,
    pub port: u16,
    pub dbname: String,
}

/// The mathematical content of a [`DatabaseConfig`].
pub ghost struct DatabaseSpec {
    pub user: Seq<char>,
    pub password: Seq<char>,
    pub host: Seq<char>,
    pub port: u16,
    pub dbname: Seq<char>,
}

impl View for DatabaseConfig {
    type V = DatabaseSpec;

    open spec fn view(&self) -> DatabaseSpec {
        DatabaseSpec {
            user: self.user@,
            password: self.password@,
            host: self.host@,
            port: self.port,
            dbname: self.dbname@,
        }
    }
}

impl Clone for DatabaseConfig {
    fn clone(&self) -> (r: Self)
        ensures
            r@ == self@,
    {
        DatabaseConfig {
            user: self.user.clone(),
            password: self.password.clone(),
            host: self.host.clone(),
            port: self.port,
            dbname: self.dbname.clone(),
        }
    }
}

/// A whole configuration: the database and the metrics to export from it.
#[derive(Debug)]
pub struct Config {
    pub database: DatabaseConfig,
    pub queries: Vec<QueryConfig>,
}

/// The mathematical content of a [`Config`].
pub ghost struct ConfigSpec {
    pub database: DatabaseSpec,
    pub queries: Seq<QuerySpec>,
}

impl View for Config {
    type V = ConfigSpec;

    open spec fn view(&self) -> ConfigSpec {
        ConfigSpec { database: self.database@, queries: specs(self.queries@) }
    }
}

/// Copies a list of queries.
pub fn clone_queries(v: &Vec<QueryConfig>) -> (r: Vec<QueryConfig>)
    ensures
        specs(r@) == specs(v@),
{
    let mut out: Vec<QueryConfig> = Vec::new();
    let mut i: usize = 0;
    while i < v.len()
        invariant
            i <= v.len(),
            out.len() == i,
            forall|j: int| 0 <= j < i ==> out[j]@ == v[j]@,
        decreases v.len() - i,
    {
        out.push(v[i].clone());
        i += 1;
    }
    assert(specs(out@) =~= specs(v@));
    out
}

impl Clone for Config {
    fn clone(&self) -> (r: Self)
        ensures
            r@ == self@,
    {
        Config { database: self.database.clone(), queries: clone_queries(&self.queries) }
    }
}

} // verus!
