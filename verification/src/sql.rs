//! The statements that a store in a database is asked with. The one that
//! writes a batch is built for the batch, in one round trip for all its
//! rows, with one pair of numbered parameters for each row.

use vstd::prelude::*;
use crate::document::{comma_separated, Document};
use crate::pool::{views_of, Resource, ResourceView};

verus! {

/// Finds the script of the strategy `$1`.
pub const SELECT_SCRIPT: &'static str = "SELECT script FROM allocation_strategies WHERE id=$1";

/// Creates a pool of name `$1` at version `$2` with strategy `$3`, and
/// hands back its identifier.
pub const INSERT_POOL: &'static str =
    "INSERT INTO resource_pools (name, version, resource_pool_allocation_strategy) VALUES ($1, $2, $3) RETURNING id as id";

/// Finds the pool with identifier `$1`.
pub const SELECT_POOL_BY_ID: &'static str =
    "SELECT id, name, version, resource_pool_allocation_strategy FROM resource_pools WHERE id=$1";

/// Finds the pool with name `$1`.
pub const SELECT_POOL_BY_NAME: &'static str =
    "SELECT id, name, version, resource_pool_allocation_strategy FROM resource_pools WHERE name=$1";

/// Finds the resources of pool `$1`, in the order in which they were stored.
pub const SELECT_RESOURCES: &'static str =
    "SELECT id, value FROM resources WHERE resource_pool=$1 ORDER BY id";

/// Sets the version of pool `$2` to `$1` where it is `$3`: the check of the
/// version and its change in one statement.
pub const UPDATE_VERSION: &'static str =
    "UPDATE resource_pools SET version=$1 WHERE id=$2 AND version=$3";

/// What stands before the rows of the statement that writes a batch.
pub const INSERT_HEAD: &'static str = "INSERT INTO resources (resource_pool, value) VALUES ";

/// What stands behind the rows: the store hands back the identifiers that
/// it gave.
pub const INSERT_TAIL: &'static str = " RETURNING id";

/// The character of a decimal digit.
pub open spec fn digit(d: nat) -> char {
    if d == 0 {
        '0'
    } else if d == 1 {
        '1'
    } else if d == 2 {
        '2'
    } else if d == 3 {
        '3'
    } else if d == 4 {
        '4'
    } else if d == 5 {
        '5'
    } else if d == 6 {
        '6'
    } else if d == 7 {
        '7'
    } else if d == 8 {
        '8'
    } else {
        '9'
    }
}

/// A number in decimal notation, without leading zeros.
pub open spec fn decimal(n: nat) -> Seq<char>
    decreases n,
{
    if n < 10 {
        seq![digit(n)]
    } else {
        decimal(n / 10).push(digit(n % 10))
    }
}

/// The place in a statement's text where parameter `number` goes.
pub open spec fn placeholder(number: nat) -> Seq<char> {
    "$"@ + decimal(number)
}

/// The places of row `i`, counted from 0: parameter `2i + 1` is the pool and
/// parameter `2i + 2` the value.
pub open spec fn row_placeholders(i: nat) -> Seq<char> {
    "("@ + placeholder(2 * i + 1) + ","@ + placeholder(2 * i + 2) + ")"@
}

/// The places of each of `rows` rows.
pub open spec fn placeholders(rows: nat) -> Seq<Seq<char>> {
    Seq::new(rows, |i: int| row_placeholders(i as nat))
}

/// The text of the statement that inserts `rows` resources.
pub open spec fn insert_query(rows: nat) -> Seq<char> {
    INSERT_HEAD@ + comma_separated(placeholders(rows)) + INSERT_TAIL@
}

/// The parameters that the statement for these rows is run with: for each
/// row its pool, then its value.
pub open spec fn row_parameters(rows: Seq<ResourceView>) -> Seq<ParameterView> {
    Seq::new(
        2 * rows.len(),
        |k: int|
            if k % 2 == 0 {
                ParameterView::Integer(rows[k / 2].resource_pool_id)
            } else {
                ParameterView::Json(rows[k / 2].value)
            },
    )
}

/// A value that a statement is run with.
#[derive(Debug, PartialEq, Eq)]
pub enum Parameter {
    Integer(i32),
    Json(Document),
}

/// What a parameter is to a contract.
pub enum ParameterView {
    Integer(i32),
    Json(Seq<char>),
}

impl View for Parameter {
    type V = ParameterView;

    open spec fn view(&self) -> ParameterView {
        match self {
            Parameter::Integer(number) => ParameterView::Integer(*number),
            Parameter::Json(document) => ParameterView::Json(document@),
        }
    }
}

/// A statement with numbered parameters. Text and parameters grow together:
/// binding a value writes the place of the next number and keeps the value
/// under that number.
#[derive(Debug, PartialEq, Eq)]
pub struct Statement {
    text: String,
    parameters: Vec<Parameter>,
}

/// What a statement is to a contract.
pub struct StatementView {
    pub text: Seq<char>,
    pub parameters: Seq<ParameterView>,
}

impl View for Statement {
    type V = StatementView;

    closed spec fn view(&self) -> StatementView {
        StatementView {
            text: self.text@,
            parameters: self.parameters@.map_values(|p: Parameter| p@),
        }
    }
}

impl Statement {
    /// A statement that starts with `head` and has no parameter yet.
    pub fn new(head: &str) -> (r: Statement)
        ensures
            r@.text == head@,
            r@.parameters.len() == 0,
    {
        Statement { text: head.to_owned(), parameters: Vec::new() }
    }

    /// Appends text that holds no parameter.
    pub fn push(&mut self, text: &str)
        ensures
            final(self)@.text == old(self)@.text + text@,
            final(self)@.parameters == old(self)@.parameters,
    {
        self.text.append(text);
    }

    /// Binds a value: appends the place of the next parameter number and
    /// keeps the value under it.
    pub fn bind(&mut self, parameter: Parameter)
        ensures
            final(self)@.text == old(self)@.text + placeholder(old(self)@.parameters.len() + 1),
            final(self)@.parameters == old(self)@.parameters.push(parameter@),
    {
        let number: u128 = self.parameters.len() as u128 + 1;
        self.text.append("$");
        self.text.append(decimal_text(number).as_str());
        self.parameters.push(parameter);
    }

    /// The statement's text.
    pub fn text(&self) -> (r: &str)
        ensures
            r@ == self@.text,
    {
        self.text.as_str()
    }

    /// The values to run the statement with, in the order of their numbers.
    pub fn parameters(&self) -> (r: &Vec<Parameter>)
        ensures
            r@.map_values(|p: Parameter| p@) == self@.parameters,
    {
        &self.parameters
    }
}

/// One decimal digit as text.
fn digit_text(d: u8) -> (r: &'static str)
    requires
        d < 10,
    ensures
        r@ == seq![digit(d as nat)],
{
    proof {
        reveal_strlit("0");
        reveal_strlit("1");
        reveal_strlit("2");
        reveal_strlit("3");
        reveal_strlit("4");
        reveal_strlit("5");
        reveal_strlit("6");
        reveal_strlit("7");
        reveal_strlit("8");
        reveal_strlit("9");
    }
    let text = match d {
        0 => "0",
        1 => "1",
        2 => "2",
        3 => "3",
        4 => "4",
        5 => "5",
        6 => "6",
        7 => "7",
        8 => "8",
        _ => "9",
    };
    text
}

/// A number in decimal notation.
pub fn decimal_text(n: u128) -> (r: String)
    ensures
        r@ == decimal(n as nat),
    decreases n,
{
    if n < 10 {
        digit_text(n as u8).to_owned()
    } else {
        let mut text = decimal_text(n / 10);
        text.append(digit_text((n % 10) as u8));
        text
    }
}

/// The statement that inserts a batch of resources in one round trip, with
/// the parameters that it is run with.
pub fn insert_resources_statement(items: &Vec<Resource>) -> (r: Statement)
    ensures
        r@.text == insert_query(items.len() as nat),
        r@.parameters == row_parameters(views_of(items@)),
{
    let ghost places = placeholders(items.len() as nat);
    let ghost values = row_parameters(views_of(items@));
    let mut statement = Statement::new(INSERT_HEAD);
    let mut i: usize = 0;
    while i < items.len()
        invariant
            i <= items.len(),
            places == placeholders(items.len() as nat),
            values == row_parameters(views_of(items@)),
            statement@.text == INSERT_HEAD@ + comma_separated(places.take(i as int)),
            statement@.parameters == values.take(2 * i),
        decreases items.len() - i,
    {
        if i > 0 {
            statement.push(",");
        }
        statement.push("(");
        statement.bind(Parameter::Integer(items[i].resource_pool_id));
        statement.push(",");
        statement.bind(Parameter::Json(items[i].value.clone()));
        statement.push(")");
        proof {
            let next = places.take(i + 1);
            assert(next.drop_last() =~= places.take(i as int));
        }
        i += 1;
    }
    proof {
        assert(places.take(i as int) =~= places);
    }
    statement.push(INSERT_TAIL);
    statement
}

} // verus!
