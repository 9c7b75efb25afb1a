use vstd::prelude::*;
use vstd::string::StringExecFns;

verus! {

/// Where the server runs.
#[derive(Debug, PartialEq, Eq, Structural, Clone, Copy)]
pub enum Environment {
    Production,
    Stage,
    Development,
}

/// The error of [`Environment::from_str`]: the name is not that of an environment.
#[derive(Debug, PartialEq, Eq, Structural, Clone, Copy)]
pub struct NotRecognized;

impl NotRecognized {
    /// What the error says.
    pub fn message(&self) -> (text: String)
        ensures
            text@ == "environment not recognized"@,
    {
        String::from_str("environment not recognized")
    }
}

/// The environment that goes by the given name.
pub open spec fn environment_named(name: Seq<char>) -> Option<Environment> {
    if name == "PRODUCTION"@ {
        Some(Environment::Production)
    } else if name == "STAGE"@ {
        Some(Environment::Stage)
    } else if name == "DEVELOPMENT"@ {
        Some(Environment::Development)
    } else {
        None
    }
}

impl Default for Environment {
    fn default() -> (environment: Self)
        ensures
            environment == Environment::Production,
    {
        Environment::Production
    }
}

impl Environment {
    /// Reads the name of an environment, which is written in capitals.
    pub fn from_str(s: &str) -> (res: Result<Self, NotRecognized>)
        ensures
            res == match environment_named(s@) {
                Some(environment) => Ok::<Environment, NotRecognized>(environment),
                None => Err(NotRecognized),
            },
    {
        let name = String::from_str(s);
        if name == String::from_str("PRODUCTION") {
            Ok(Environment::Production)
        } else if name == String::from_str("STAGE") {
            Ok(Environment::Stage)
        } else if name == String::from_str("DEVELOPMENT") {
            Ok(Environment::Development)
        } else {
            Err(NotRecognized)
        }
    }
}

} // verus!
