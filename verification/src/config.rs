//! The settings of a run, as they come out of the environment.
use vstd::prelude::*;
use vstd::string::StringExecFns;

use crate::mesh::text_view;
use crate::text::{
    behind_plus, decimal, decimal_is_read_back, made_of_digits, number_is_read_iff_written,
    parse_u64, parsed_u64, worth,
};

verus! {

/// How long the nodes may take to peer where nothing else is set, in seconds.
pub const DEFAULT_PEER_TIMEOUT_SECS: u64 = 45;

/// A variable of the environment that a run cannot do without.
#[derive(Clone, Copy, Debug, PartialEq, Eq, Structural)]
pub enum RequiredVar {
    ABase,
    AToken,
    BBase,
    BToken,
}

impl RequiredVar {
    pub open spec fn name_text(self) -> Seq<char> {
        match self {
            RequiredVar::ABase => "CE_IT_A_BASE"@,
            RequiredVar::AToken => "CE_IT_A_TOKEN"@,
            RequiredVar::BBase => "CE_IT_B_BASE"@,
            RequiredVar::BToken => "CE_IT_B_TOKEN"@,
        }
    }

    /// The name of the variable.
    pub fn name(self) -> (r: &'static str)
        ensures
            r@ == self.name_text(),
    {
        match self {
            RequiredVar::ABase => "CE_IT_A_BASE",
            RequiredVar::AToken => "CE_IT_A_TOKEN",
            RequiredVar::BBase => "CE_IT_B_BASE",
            RequiredVar::BToken => "CE_IT_B_TOKEN",
        }
    }

    /// What is said where the variable is not set.
    pub fn missing_message(self) -> (r: String)
        ensures
            r@ == "missing required env var "@ + self.name_text(),
    {
        "missing required env var ".to_owned().concat(self.name())
    }
}

/// The variables that a run looks at, each where it is set.
pub struct EnvVars {
    pub a_base: Option<String>,
    pub a_token: Option<String>,
    pub b_base: Option<String>,
    pub b_token: Option<String>,
    pub peer_timeout_secs: Option<String>,
}

/// The settings of a run.
pub struct Config {
    pub a_base: String,
    pub a_token: String,
    pub b_base: String,
    pub b_token: String,
    pub peer_timeout_secs: u64,
}

/// The first required variable that is not set.
pub open spec fn first_missing(vars: EnvVars) -> Option<RequiredVar> {
    if vars.a_base is None {
        Some(RequiredVar::ABase)
    } else if vars.a_token is None {
        Some(RequiredVar::AToken)
    } else if vars.b_base is None {
        Some(RequiredVar::BBase)
    } else if vars.b_token is None {
        Some(RequiredVar::BToken)
    } else {
        None
    }
}

/// The timeout that a setting stands for: the default where it is not set or
/// is no number.
pub open spec fn peer_timeout(setting: Option<Seq<char>>) -> u64 {
    match setting {
        Some(s) => match parsed_u64(s) {
            Some(n) => n,
            None => DEFAULT_PEER_TIMEOUT_SECS,
        },
        None => DEFAULT_PEER_TIMEOUT_SECS,
    }
}

impl Config {
    /// The settings that the environment holds. It fails exactly where a
    /// required variable is not set, and names the first one.
    pub fn from_env(vars: EnvVars) -> (r: Result<Self, RequiredVar>)
        ensures
            r is Ok <==> first_missing(vars) is None,
            r matches Ok(c) ==> Some(c.a_base@) == text_view(vars.a_base) && Some(c.a_token@)
                == text_view(vars.a_token) && Some(c.b_base@) == text_view(vars.b_base) && Some(
                c.b_token@,
            ) == text_view(vars.b_token) && c.peer_timeout_secs == peer_timeout(
                text_view(vars.peer_timeout_secs),
            ),
            r matches Err(v) ==> first_missing(vars) == Some(v),
    {
        let peer_timeout_secs: u64 = match &vars.peer_timeout_secs {
            Some(s) => match parse_u64(s.as_str()) {
                Some(n) => n,
                None => DEFAULT_PEER_TIMEOUT_SECS,
            },
            None => DEFAULT_PEER_TIMEOUT_SECS,
        };
        match (vars.a_base, vars.a_token, vars.b_base, vars.b_token) {
            (None, _, _, _) => Err(RequiredVar::ABase),
            (_, None, _, _) => Err(RequiredVar::AToken),
            (_, _, None, _) => Err(RequiredVar::BBase),
            (_, _, _, None) => Err(RequiredVar::BToken),
            (Some(a_base), Some(a_token), Some(b_base), Some(b_token)) => Ok(
                Config { a_base, a_token, b_base, b_token, peer_timeout_secs },
            ),
        }
    }
}

/// A timeout that is set in decimal is the timeout of the run.
pub proof fn set_timeout_is_kept(n: u64)
    ensures
        peer_timeout(Some(decimal(n as nat))) == n,
{
    decimal_is_read_back(n);
}

/// A variable is told missing exactly if it is not set and every one that comes
/// before it is: the address of A, its token, the address of B, its token.
pub proof fn missing_variable_is_the_first(vars: EnvVars)
    ensures
        first_missing(vars) == Some(RequiredVar::ABase) <==> vars.a_base is None,
        first_missing(vars) == Some(RequiredVar::AToken) <==> vars.a_base is Some
            && vars.a_token is None,
        first_missing(vars) == Some(RequiredVar::BBase) <==> vars.a_base is Some
            && vars.a_token is Some && vars.b_base is None,
        first_missing(vars) == Some(RequiredVar::BToken) <==> vars.a_base is Some
            && vars.a_token is Some && vars.b_base is Some && vars.b_token is None,
        first_missing(vars) is None <==> vars.a_base is Some && vars.a_token is Some
            && vars.b_base is Some && vars.b_token is Some,
{
}

/// The timeout is 45 seconds unless the setting is a number: one or more digits
/// behind at most one plus sign, worth no more than 64 bits hold. Then it is
/// that number.
pub proof fn timeout_is_the_number_or_45(s: Seq<char>, n: u64)
    ensures
        peer_timeout(None) == 45,
        made_of_digits(behind_plus(s)) && worth(behind_plus(s)) == n ==> peer_timeout(Some(s)) == n,
        !made_of_digits(behind_plus(s)) || worth(behind_plus(s)) > u64::MAX ==> peer_timeout(
            Some(s),
        ) == 45,
{
    number_is_read_iff_written(s, n);
    if let Some(m) = parsed_u64(s) {
        number_is_read_iff_written(s, m);
    }
}

/// The required variables are named for the node and for what they hold.
pub proof fn variables_have_their_names()
    ensures
        RequiredVar::ABase.name_text() == "CE_IT_A_BASE"@,
        RequiredVar::AToken.name_text() == "CE_IT_A_TOKEN"@,
        RequiredVar::BBase.name_text() == "CE_IT_B_BASE"@,
        RequiredVar::BToken.name_text() == "CE_IT_B_TOKEN"@,
{
}

} // verus!
