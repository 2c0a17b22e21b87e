use vstd::prelude::*;

use crate::engine::geo_target;
use crate::matching::{match_type_named, opt_view, GeoRule, MatchType};
use crate::provider::ClientIp;
use crate::state::ResolutionState;

verus! {

/// A stored rule as the rule store hands it over, its kind still as text.
#[derive(Debug)]
pub struct RuleRow {
    pub id: String,
    pub match_type: String,
    pub match_value: String,
    pub target: String,
}

/// The rule that a row stands for, or `None` where its kind is none of
/// `country`, `region` and `continent` (such a row can never match).
pub open spec fn row_rule(row: RuleRow) -> Option<GeoRule> {
    match match_type_named(row.match_type@) {
        Some(kind) => Some(
            GeoRule { id: row.id, match_type: kind, match_value: row.match_value, target: row.target },
        ),
        None => None,
    }
}

/// The rules of `rows`, in row order, rows of unknown kind left out.
pub open spec fn rules_of_rows(rows: Seq<RuleRow>) -> Seq<GeoRule>
    decreases rows.len(),
{
    if rows.len() == 0 {
        Seq::empty()
    } else {
        let before = rules_of_rows(rows.drop_last());
        match row_rule(rows.last()) {
            Some(rule) => before.push(rule),
            None => before,
        }
    }
}

impl RuleRow {
    /// The rule this row stands for.
    pub fn to_rule(&self) -> (r: Option<GeoRule>)
        ensures
            r == row_rule(*self),
    {
        match MatchType::from_name(self.match_type.as_str()) {
            Some(kind) => Some(
                GeoRule {
                    id: self.id.clone(),
                    match_type: kind,
                    match_value: self.match_value.clone(),
                    target: self.target.clone(),
                },
            ),
            None => None,
        }
    }
}

/// Turns stored rows into the ordered rule list, keeping their order.
pub fn rules_from_rows(rows: &Vec<RuleRow>) -> (r: Vec<GeoRule>)
    ensures
        r@ == rules_of_rows(rows@),
{
    let mut out: Vec<GeoRule> = Vec::new();
    let mut i: usize = 0;
    while i < rows.len()
        invariant
            i <= rows@.len(),
            out@ == rules_of_rows(rows@.take(i as int)),
        decreases rows.len() - i,
    {
        let rule = rows[i].to_rule();
        proof {
            assert(rows@.take(i + 1).drop_last() =~= rows@.take(i as int));
            assert(rows@.take(i + 1).last() == rows@[i as int]);
        }
        match rule {
            Some(g) => out.push(g),
            None => {},
        }
        i = i + 1;
    }
    proof {
        assert(rows@.take(rows@.len() as int) =~= rows@);
    }
    out
}

/// The answer to a resolution request: the chosen target, or no target with
/// a message saying that no rule matched.
#[derive(Debug)]
pub struct GeoResolveResponse {
    pub target: Option<String>,
    pub message: Option<String>,
}

/// What a request for a client address that does not parse gets.
#[derive(Debug, Clone, Copy, PartialEq, Eq, Structural)]
pub enum ResolveError {
    InvalidAddress,
}

/// The message sent back when no rule decides.
pub open spec fn no_match_message() -> Seq<char> {
    "no matching geo rule"@
}

/// `resp` answers with `target`: the target alone, or no target and the
/// no-match message.
pub open spec fn answers(resp: GeoResolveResponse, target: Option<Seq<char>>) -> bool {
    &&& opt_view(resp.target) == target
    &&& match target {
        Some(_) => resp.message is None,
        None => opt_view(resp.message) == Some(no_match_message()),
    }
}

/// The response for an evaluation's result.
pub fn response_for(target: Option<String>) -> (r: GeoResolveResponse)
    ensures
        r.target == target,
        answers(r, opt_view(target)),
{
    match target {
        Some(t) => GeoResolveResponse { target: Some(t), message: None },
        None => GeoResolveResponse {
            target: None,
            message: Some(String::from_str("no matching geo rule")),
        },
    }
}

/// Resolves a request once the client address has been parsed (`None`: it
/// did not parse) and the zone's rule rows have been fetched. An address
/// that did not parse is refused before any rule is looked at; otherwise
/// the response carries the target that the rules and the held dataset
/// give, or says that none matched.
pub fn resolve(state: &ResolutionState, rows: &Vec<RuleRow>, client_ip: Option<ClientIp>) -> (r:
    Result<GeoResolveResponse, ResolveError>)
    ensures
        client_ip is None ==> r == Err::<GeoResolveResponse, ResolveError>(
            ResolveError::InvalidAddress,
        ),
        client_ip matches Some(ip) ==> r matches Ok(resp) && answers(
            resp,
            geo_target(rules_of_rows(rows@), state.dataset(), ip.octets()),
        ),
{
    match client_ip {
        None => Err(ResolveError::InvalidAddress),
        Some(ip) => {
            let engine = state.engine(rules_from_rows(rows));
            Ok(response_for(engine.evaluate(ip)))
        },
    }
}

} // verus!
