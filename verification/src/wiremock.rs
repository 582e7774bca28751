//! Starting and watching a standalone WireMock server.
//!
//! The server runs as a Java process; [`Wiremock::server_command`] says which
//! command starts it. Spawning the process, reading its output and watching
//! the mappings folder is the caller's part.

use vstd::prelude::*;
use crate::text::{decimal, int_numeral, numeral_value, lemma_int_numeral_value};

verus! {

/// Operations on a standalone WireMock server.
pub struct Wiremock {}

/// What can go wrong around the server.
#[derive(Debug)]
pub enum WiremockErrors {
    FileWatcherError,
    ThisDoesntLookGoodError,
    ImmaGetFiredError,
}

/// A program to run and its arguments.
pub struct ServerCommand {
    pub program: String,
    pub args: Vec<String>,
}

/// The arguments that start a server over the mappings under `root_dir`,
/// listening on `port`, with response templating on.
pub open spec fn server_args(root_dir: Seq<char>, port: int) -> Seq<Seq<char>> {
    seq![
        "-jar"@,
        "./wiremock-standalone-3.2.0.jar"@,
        "--root-dir"@,
        root_dir,
        "--port"@,
        int_numeral(port),
        "--local-response-templating"@,
    ]
}

/// The views of a list of strings.
pub open spec fn string_views(v: Seq<String>) -> Seq<Seq<char>> {
    v.map_values(|s: String| s@)
}

/// The command line of a server, for every folder and port, has exactly seven
/// entries: it runs the standalone jar, over the folder and on the port it was
/// asked for (the folder follows `--root-dir`, and the numeral after `--port`
/// reads back as the port), and always ends by turning response templating on.
pub proof fn lemma_server_args_read_back(root_dir: Seq<char>, port: int)
    ensures
        server_args(root_dir, port).len() == 7,
        server_args(root_dir, port)[0] == "-jar"@,
        server_args(root_dir, port)[1] == "./wiremock-standalone-3.2.0.jar"@,
        server_args(root_dir, port)[6] == "--local-response-templating"@,
        server_args(root_dir, port).last() == "--local-response-templating"@,
        server_args(root_dir, port)[2] == "--root-dir"@,
        server_args(root_dir, port)[3] == root_dir,
        server_args(root_dir, port)[4] == "--port"@,
        numeral_value(server_args(root_dir, port)[5]) == port,
{
    lemma_int_numeral_value(port);
}

impl Wiremock {
    /// The command that starts a server over the mappings and files under
    /// `mapping_path`, listening on `port`: `java` with [`server_args`].
    pub fn server_command(mapping_path: &String, port: i32) -> (c: ServerCommand)
        ensures
            c.program@ == "java"@,
            c.args@.len() == 7,
            c.args@[0]@ == "-jar"@,
            c.args@[1]@ == "./wiremock-standalone-3.2.0.jar"@,
            c.args@[2]@ == "--root-dir"@,
            c.args@[3]@ == mapping_path@,
            c.args@[4]@ == "--port"@,
            c.args@[5]@ == int_numeral(port as int),
            numeral_value(c.args@[5]@) == port as int,
            c.args@[6]@ == "--local-response-templating"@,
            string_views(c.args@) == server_args(mapping_path@, port as int),
    {
        let mut args: Vec<String> = Vec::new();
        args.push(String::from_str("-jar"));
        args.push(String::from_str("./wiremock-standalone-3.2.0.jar"));
        args.push(String::from_str("--root-dir"));
        args.push(mapping_path.clone());
        args.push(String::from_str("--port"));
        args.push(decimal(port));
        args.push(String::from_str("--local-response-templating"));
        proof {
            assert(string_views(args@) =~= server_args(mapping_path@, port as int));
            lemma_int_numeral_value(port as int);
        }
        ServerCommand { program: String::from_str("java"), args }
    }

    /// The outcome of starting the file watcher, given whether the watcher
    /// could be created: a watcher that could not be created is a
    /// `FileWatcherError`.
    pub fn filewatcher_outcome(watcher_created: bool) -> (r: Result<(), WiremockErrors>)
        ensures
            watcher_created ==> r is Ok,
            !watcher_created ==> r matches Err(WiremockErrors::FileWatcherError),
    {
        if watcher_created {
            Ok(())
        } else {
            Err(WiremockErrors::FileWatcherError)
        }
    }
}

} // verus!
