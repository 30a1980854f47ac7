//! Construction of the external-process specifications.
//!
//! A [`ProcessSpec`] is the immutable description of one external process to
//! start: the program to run, its ordered argument list, whether its standard
//! input is to be redirected to a pipe, and an optional working directory.
//! The two builders derive, from the caller's folder choices, the exact
//! specification of the import tool's run and of the game's launch.

use crate::paths::{
    game_executable_path, import_script_path, spec_game_executable_path, spec_import_script_path,
    spec_utmt_cli_exe_path, utmt_cli_exe_path,
};
use vstd::prelude::*;
use vstd::string::*;

verus! {

/// Mathematical model of a [`ProcessSpec`].
pub struct ProcessSpecView {
    pub program: Seq<char>,
    pub args: Seq<Seq<char>>,
    pub stdin_piped: bool,
    pub current_dir: Option<Seq<char>>,
}

/// Description of one external process to start: program path, ordered
/// argument list, standard-input redirection, optional working directory.
pub struct ProcessSpec {
    pub program: String,
    pub args: Vec<String>,
    pub stdin_piped: bool,
    pub current_dir: Option<String>,
}

impl View for ProcessSpec {
    type V = ProcessSpecView;

    open spec fn view(&self) -> ProcessSpecView {
        ProcessSpecView {
            program: self.program@,
            args: self.args.deep_view(),
            stdin_piped: self.stdin_piped,
            current_dir: match self.current_dir {
                Some(d) => Some(d@),
                None => None,
            },
        }
    }
}

/// The argument list of one import run:
/// `load <source> -s <script> -o <output>`.
pub open spec fn spec_import_args(
    source_data_win_path: Seq<char>,
    import_script_path: Seq<char>,
    output_data_win_path: Seq<char>,
) -> Seq<Seq<char>> {
    seq![
        "load"@,
        source_data_win_path,
        "-s"@,
        import_script_path,
        "-o"@,
        output_data_win_path,
    ]
}

/// Builds the specification of one import run of the tool: the executable
/// inside the tool's installation folder, the `load` command line over the
/// source, script and output paths, and a piped standard input so that the
/// configuration line can be fed to it while it runs.
pub fn import_process_spec(
    source_data_win_path: &str,
    utmt_cli_folder_path: &str,
    git_root_folder_path: &str,
    output_data_win_path: &str,
) -> (r: ProcessSpec)
    ensures
        r@.program == spec_utmt_cli_exe_path(utmt_cli_folder_path@),
        r@.args == spec_import_args(
            source_data_win_path@,
            spec_import_script_path(git_root_folder_path@),
            output_data_win_path@,
        ),
        r@.stdin_piped,
        r@.current_dir is None,
{
    let program = utmt_cli_exe_path(utmt_cli_folder_path);
    let script = import_script_path(git_root_folder_path);
    let mut args: Vec<String> = Vec::new();
    args.push("load".to_owned());
    args.push(source_data_win_path.to_owned());
    args.push("-s".to_owned());
    args.push(script);
    args.push("-o".to_owned());
    args.push(output_data_win_path.to_owned());
    let r = ProcessSpec { program, args, stdin_piped: true, current_dir: None };
    proof {
        assert(r@.args =~= spec_import_args(
            source_data_win_path@,
            spec_import_script_path(git_root_folder_path@),
            output_data_win_path@,
        ));
    }
    r
}

/// Builds the specification of one game launch: the fixed-name executable
/// inside the game folder, no arguments, no input redirection, and the game
/// folder itself as the working directory.
pub fn game_process_spec(game_folder_path: &str) -> (r: ProcessSpec)
    ensures
        r@.program == spec_game_executable_path(game_folder_path@),
        r@.args == Seq::<Seq<char>>::empty(),
        !r@.stdin_piped,
        r@.current_dir == Some(game_folder_path@),
{
    let program = game_executable_path(game_folder_path);
    let r = ProcessSpec {
        program,
        args: Vec::new(),
        stdin_piped: false,
        current_dir: Some(game_folder_path.to_owned()),
    };
    proof {
        assert(r@.args =~= Seq::<Seq<char>>::empty());
    }
    r
}

} // verus!
