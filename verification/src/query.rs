//! Find/where queries: a builder that cannot be finished before both clause
//! lists are given, and the text of the finished query.

use vstd::prelude::*;
use vstd::string::StringExecFns;

verus! {

/// Why a clause list was refused.
#[derive(Clone, Copy, Debug, PartialEq, Eq)]
pub enum ValidationError {
    /// The list of variables to find was empty.
    EmptyFind,
    /// The list of where clauses was empty.
    EmptyWhere,
}

impl ValidationError {
    /// What went wrong, in words.
    pub open spec fn text(self) -> Seq<char> {
        match self {
            ValidationError::EmptyFind => "a query has to find at least one variable"@,
            ValidationError::EmptyWhere => "a query needs at least one where clause"@,
        }
    }

    /// What went wrong, in words.
    pub fn message(&self) -> (out: String)
        ensures
            out@ == self.text(),
    {
        match self {
            ValidationError::EmptyFind => String::from_str(
                "a query has to find at least one variable",
            ),
            ValidationError::EmptyWhere => String::from_str(
                "a query needs at least one where clause",
            ),
        }
    }
}

/// The characters of each string slice in `items`.
pub open spec fn slice_texts(items: Seq<&str>) -> Seq<Seq<char>> {
    Seq::new(items.len(), |i: int| items[i]@)
}

/// The characters of each string in `items`.
pub open spec fn string_texts(items: Seq<String>) -> Seq<Seq<char>> {
    Seq::new(items.len(), |i: int| items[i]@)
}

/// The parts in order, with one blank between neighbours.
pub open spec fn spaced(parts: Seq<Seq<char>>) -> Seq<char>
    decreases parts.len(),
{
    if parts.len() == 0 {
        Seq::empty()
    } else if parts.len() == 1 {
        parts[0]
    } else {
        spaced(parts.drop_last()) + " "@ + parts.last()
    }
}

/// Each part within its own pair of square brackets.
pub open spec fn bracketed(parts: Seq<Seq<char>>) -> Seq<Seq<char>> {
    Seq::new(parts.len(), |i: int| "["@ + parts[i] + "]"@)
}

/// What a query is: the variables it finds, the clauses that bind them, and
/// whether an answer row carries every variable or the first alone.
pub struct QueryView {
    /// The variables to find, in order.
    pub find: Seq<Seq<char>>,
    /// The clauses that bind the variables, in order.
    pub where_clauses: Seq<Seq<char>>,
    /// Whether each answer row holds the value of every variable.
    pub full_results: bool,
}

impl QueryView {
    /// The text in which the database reads the query. It lists every
    /// variable, whatever `full_results` says.
    pub open spec fn text(self) -> Seq<char> {
        "{:query {:find ["@ + spaced(self.find) + "] :where ["@ + spaced(
            bracketed(self.where_clauses),
        ) + "]}}"@
    }
}

/// Copies string slices into owned strings.
fn own_all(items: &Vec<&str>) -> (owned: Vec<String>)
    ensures
        string_texts(owned@) == slice_texts(items@),
{
    let mut owned: Vec<String> = Vec::new();
    let mut i: usize = 0;
    while i < items.len()
        invariant
            i <= items.len(),
            owned@.len() == i,
            forall|k: int| 0 <= k < i ==> (#[trigger] owned@[k])@ == items@[k]@,
        decreases items.len() - i,
    {
        owned.push(String::from_str(items[i]));
        i = i + 1;
    }
    assert(string_texts(owned@) =~= slice_texts(items@));
    owned
}

/// Appends `parts` to `out`, one blank between neighbours; with `wrap`, each
/// part goes within its own pair of square brackets.
fn push_spaced(out: &mut String, parts: &Vec<String>, wrap: bool)
    ensures
        final(out)@ == old(out)@ + spaced(
            if wrap {
                bracketed(string_texts(parts@))
            } else {
                string_texts(parts@)
            },
        ),
{
    let ghost all = if wrap {
        bracketed(string_texts(parts@))
    } else {
        string_texts(parts@)
    };
    let mut i: usize = 0;
    while i < parts.len()
        invariant
            i <= parts.len(),
            all.len() == parts@.len(),
            all == if wrap {
                bracketed(string_texts(parts@))
            } else {
                string_texts(parts@)
            },
            out@ == old(out)@ + spaced(all.take(i as int)),
        decreases parts.len() - i,
    {
        if i > 0 {
            out.append(" ");
        }
        if wrap {
            out.append("[");
        }
        out.append(parts[i].as_str());
        if wrap {
            out.append("]");
        }
        proof {
            let upto = all.take(i + 1);
            assert(upto.drop_last() =~= all.take(i as int));
            assert(upto.last() == all[i as int]);
            assert(out@ =~= old(out)@ + spaced(upto));
        }
        i = i + 1;
    }
    assert(all.take(i as int) =~= all);
}

/// The first stage of a query under construction: the variables are given,
/// the where clauses are still owed.
#[derive(Debug)]
pub struct FindClause {
    find: Vec<String>,
}

impl View for FindClause {
    type V = Seq<Seq<char>>;

    closed spec fn view(&self) -> Seq<Seq<char>> {
        string_texts(self.find@)
    }
}

/// The second stage of a query under construction: both clause lists are
/// given, so the query can be finished.
#[derive(Debug)]
pub struct QueryBuilder {
    find: Vec<String>,
    where_clauses: Vec<String>,
    full_results: bool,
}

impl View for QueryBuilder {
    type V = QueryView;

    closed spec fn view(&self) -> QueryView {
        QueryView {
            find: string_texts(self.find@),
            where_clauses: string_texts(self.where_clauses@),
            full_results: self.full_results,
        }
    }
}

/// A finished find/where query. It finds at least one variable and has at
/// least one where clause.
#[derive(Debug, PartialEq)]
pub struct Query {
    find: Vec<String>,
    where_clauses: Vec<String>,
    full_results: bool,
}

impl View for Query {
    type V = QueryView;

    closed spec fn view(&self) -> QueryView {
        QueryView {
            find: string_texts(self.find@),
            where_clauses: string_texts(self.where_clauses@),
            full_results: self.full_results,
        }
    }
}

impl FindClause {
    #[verifier::type_invariant]
    spec fn valid(self) -> bool {
        self.find@.len() > 0
    }

    /// Gives the clauses that bind the variables. An empty list is refused.
    pub fn where_clause(self, clauses: Vec<&str>) -> (next: Result<QueryBuilder, ValidationError>)
        ensures
            clauses@.len() == 0 ==> next == Err::<QueryBuilder, ValidationError>(
                ValidationError::EmptyWhere,
            ),
            clauses@.len() > 0 ==> next is Ok && next->Ok_0@ == (QueryView {
                find: self@,
                where_clauses: slice_texts(clauses@),
                full_results: false,
            }),
    {
        proof {
            use_type_invariant(&self);
        }
        if clauses.len() == 0 {
            return Err(ValidationError::EmptyWhere);
        }
        let where_clauses = own_all(&clauses);
        assert(where_clauses@.len() == string_texts(where_clauses@).len());
        Ok(QueryBuilder { find: self.find, where_clauses, full_results: false })
    }
}

impl QueryBuilder {
    #[verifier::type_invariant]
    spec fn valid(self) -> bool {
        self.find@.len() > 0 && self.where_clauses@.len() > 0
    }

    /// Asks for answer rows that hold the value of every variable found,
    /// where otherwise a row holds that of the first alone.
    pub fn with_full_results(self) -> (next: QueryBuilder)
        ensures
            next@ == (QueryView { full_results: true, ..self@ }),
    {
        proof {
            use_type_invariant(&self);
        }
        QueryBuilder { find: self.find, where_clauses: self.where_clauses, full_results: true }
    }

    /// Finishes the query. What it hands back finds at least one variable
    /// and has at least one where clause.
    pub fn build(self) -> (query: Query)
        ensures
            query@ == self@,
            query@.find.len() > 0,
            query@.where_clauses.len() > 0,
    {
        proof {
            use_type_invariant(&self);
        }
        Query {
            find: self.find,
            where_clauses: self.where_clauses,
            full_results: self.full_results,
        }
    }
}

impl Query {
    #[verifier::type_invariant]
    spec fn valid(self) -> bool {
        self.find@.len() > 0 && self.where_clauses@.len() > 0
    }

    /// Starts a query with the variables to find. An empty list is refused.
    pub fn find(variables: Vec<&str>) -> (next: Result<FindClause, ValidationError>)
        ensures
            variables@.len() == 0 ==> next == Err::<FindClause, ValidationError>(
                ValidationError::EmptyFind,
            ),
            variables@.len() > 0 ==> next is Ok && next->Ok_0@ == slice_texts(variables@),
    {
        if variables.len() == 0 {
            return Err(ValidationError::EmptyFind);
        }
        let find = own_all(&variables);
        assert(find@.len() == string_texts(find@).len());
        Ok(FindClause { find })
    }

    /// Whether each answer row holds the value of every variable found, or
    /// that of the first alone.
    pub fn is_full_results(&self) -> (full: bool)
        ensures
            full == self@.full_results,
    {
        self.full_results
    }

    /// Writes the query out without giving it up.
    pub fn render(&self) -> (out: String)
        ensures
            out@ == self@.text(),
    {
        let mut out = String::from_str("{:query {:find [");
        push_spaced(&mut out, &self.find, false);
        out.append("] :where [");
        push_spaced(&mut out, &self.where_clauses, true);
        out.append("]}}");
        out
    }

    /// Writes the query out as the database reads it.
    pub fn serialize(self) -> (out: String)
        ensures
            out@ == self@.text(),
    {
        self.render()
    }
}

} // verus!
