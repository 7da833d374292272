use vstd::prelude::*;

verus! {

/// The options given on the command line.
pub struct Config {
    pub slack_token: String,
}

impl Config {
    /// The options as text: `(slack_token: <token>)`.
    pub fn describe(&self) -> (r: String)
        ensures
            r@ == "(slack_token: "@ + self.slack_token@ + ")"@,
    {
        let mut s = String::from_str("(slack_token: ");
        s.append(self.slack_token.as_str());
        s.append(")");
        s
    }
}

} // verus!
