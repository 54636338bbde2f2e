//! The command surface: what the user asked for, as plain data. Argument
//! parsing lives outside the library; these types carry its result.

use vstd::prelude::*;

verus! {

/// Options that apply to every command: proxies, where to save, whether to
/// download what a listing shows, and whether to walk listings to their end.
#[derive(Clone, Debug)]
pub struct GlobalOptions {
    pub all_proxy: Option<String>,
    pub http_proxy: Option<String>,
    pub https_proxy: Option<String>,
    pub subcommand: SubCommand,
    pub save_dir: String,
    pub download: bool,
    pub until_end: bool,
}

/// The command groups.
#[derive(Clone, Debug)]
pub enum SubCommand {
    Comic(ComicOptions),
    Game(GameOptions),
    User(UserOptions),
}

/// Commands over comics: listings to show, and episodes to download.
#[derive(Clone, Debug)]
pub enum ComicOptions {
    Ranking,
    Metadata { cids: Vec<String>, save_dir: String },
    Recommended { cids: Vec<String>, save_dir: String },
    Eps { cid: String, start: u64, end: Option<u64>, save_dir: String },
    Pages {
        cid: String,
        start_index: u64,
        end_index: Option<u64>,
        start: u64,
        end: Option<u64>,
        save_dir: String,
    },
    PicLikeGet { cid: String, start: u64, end: Option<u64>, save_dir: String },
    Search { keyword: String, start: u64, end: Option<u64>, save_dir: String },
    Favourites { start: u64, end: Option<u64>, save_dir: String },
    Download { cids: Vec<String>, save_dir: String },
}

/// Commands over games.
#[derive(Clone, Debug)]
pub enum GameOptions {
    Games { start: u64, end: Option<u64>, save_dir: String },
    Info { cids: Vec<String>, save_dir: String },
    Download { cids: Vec<String>, save_dir: String },
}

/// Commands over the user's own account.
#[derive(Clone, Copy, PartialEq, Eq, Structural, Debug)]
pub enum UserOptions {
    PunchIn,
    Profile,
}

/// What kind of resource a download command addresses.
pub enum DownloadParmas {
    Comic(),
    Game(),
}

} // verus!
