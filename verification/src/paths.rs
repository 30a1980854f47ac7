//! Derivation of the fixed-name file paths the bridge works with.
//!
//! Each path is a folder chosen by the caller joined with a fixed tail:
//! the import tool's executable, the import script inside the translation
//! repository, and the game's own executable.

use vstd::prelude::*;
use vstd::string::*;

verus! {

/// Path of the import tool's executable inside its installation folder.
pub open spec fn spec_utmt_cli_exe_path(utmt_cli_folder_path: Seq<char>) -> Seq<char> {
    utmt_cli_folder_path + "/UndertaleModCli.exe"@
}

/// Path of the import script inside the translation repository.
pub open spec fn spec_import_script_path(git_root_folder_path: Seq<char>) -> Seq<char> {
    git_root_folder_path + "/Script/UMT/DRFR/ImporterToutTranslationTool.csx"@
}

/// Path of the game executable inside the game folder.
pub open spec fn spec_game_executable_path(game_folder_path: Seq<char>) -> Seq<char> {
    game_folder_path + "/DELTARUNE.exe"@
}

pub fn utmt_cli_exe_path(utmt_cli_folder_path: &str) -> (r: String)
    ensures
        r@ == spec_utmt_cli_exe_path(utmt_cli_folder_path@),
{
    let mut r = utmt_cli_folder_path.to_owned();
    r.append("/UndertaleModCli.exe");
    r
}

pub fn import_script_path(git_root_folder_path: &str) -> (r: String)
    ensures
        r@ == spec_import_script_path(git_root_folder_path@),
{
    let mut r = git_root_folder_path.to_owned();
    r.append("/Script/UMT/DRFR/ImporterToutTranslationTool.csx");
    r
}

pub fn game_executable_path(game_folder_path: &str) -> (r: String)
    ensures
        r@ == spec_game_executable_path(game_folder_path@),
{
    let mut r = game_folder_path.to_owned();
    r.append("/DELTARUNE.exe");
    r
}

} // verus!
