//! The child process of a bridge: how it is started and what its lines are.

use crate::telegram::client::is_white_space;
use crate::text::chars_of;
use vstd::prelude::*;

verus! {

/// How a bridge process is started.
#[derive(Debug)]
pub struct BridgeProcess {
    pub program: String,
    pub args: Vec<String>,
    pub current_dir: String,
    pub env: Vec<(String, String)>,
}

impl BridgeProcess {
    /// Whether this runs `script` with Node in `js_dir` under the environment `env`.
    pub open spec fn runs_script(
        &self,
        js_dir: Seq<char>,
        script: Seq<char>,
        env: Seq<(Seq<char>, Seq<char>)>,
    ) -> bool {
        &&& self.program@ == "node"@
        &&& self.args.deep_view() == seq![script]
        &&& self.current_dir@ == js_dir
        &&& self.env.deep_view() == env
    }

    /// Run `script` with Node in `js_dir` under the environment `env`.
    pub fn node(js_dir: &str, script: &str, env: Vec<(String, String)>) -> (process: Self)
        ensures
            process.runs_script(js_dir@, script@, env.deep_view()),
    {
        let mut args: Vec<String> = Vec::new();
        args.push(script.to_string());
        assert(args.deep_view() =~= seq![script@]);
        BridgeProcess {
            program: "node".to_string(),
            args,
            current_dir: js_dir.to_string(),
            env,
        }
    }
}

/// `env` with a variable at its end, where it has a value.
pub open spec fn with_variable(
    env: Seq<(Seq<char>, Seq<char>)>,
    name: Seq<char>,
    value: Option<Seq<char>>,
) -> Seq<(Seq<char>, Seq<char>)> {
    match value {
        Some(value) => env.push((name, value)),
        None => env,
    }
}

/// Put a variable at the end of `env`, where it has a value.
pub fn push_variable(env: &mut Vec<(String, String)>, name: &str, value: Option<String>)
    ensures
        final(env).deep_view() == with_variable(old(env).deep_view(), name@, value.deep_view()),
{
    if let Some(value) = value {
        let ghost text = value@;
        env.push((name.to_string(), value));
        assert(env.deep_view() =~= old(env).deep_view().push((name@, text)));
    }
}

/// The name of a truth value.
pub open spec fn flag_text(set: bool) -> Seq<char> {
    if set {
        "true"@
    } else {
        "false"@
    }
}

/// The name of a truth value.
pub fn flag_name(set: bool) -> (name: &'static str)
    ensures
        name@ == flag_text(set),
{
    if set {
        "true"
    } else {
        "false"
    }
}

/// Whether a line of output says nothing.
pub open spec fn is_blank_line(line: Seq<char>) -> bool {
    forall|i: int| 0 <= i < line.len() ==> is_white_space(#[trigger] line[i])
}

/// Whether a line of output says nothing.
pub fn is_blank(line: &str) -> (blank: bool)
    ensures
        blank == is_blank_line(line@),
{
    let chars = chars_of(line);
    let mut i: usize = 0;
    while i < chars.len()
        invariant
            i <= chars.len(),
            chars@ == line@,
            forall|k: int| 0 <= k < i ==> is_white_space(#[trigger] line@[k]),
        decreases chars.len() - i,
    {
        if !chars[i].is_whitespace() {
            assert(!is_white_space(line@[i as int]));
            return false;
        }
        i += 1;
    }
    true
}

/// What is said of a line that cannot be read.
pub open spec fn invalid_line(reason: Seq<char>, line: Seq<char>) -> Seq<char> {
    "invalid bridge stdout: "@ + reason + ": "@ + line
}

/// What is said of a line that cannot be read.
pub fn invalid_line_text(reason: &str, line: &str) -> (message: String)
    ensures
        message@ == invalid_line(reason@, line@),
{
    "invalid bridge stdout: ".to_string().concat(reason).concat(": ").concat(line)
}

}
