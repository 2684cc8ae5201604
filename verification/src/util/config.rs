use vstd::prelude::*;
use vstd::string::StringExecFns;

verus! {

/// The working directories of one deployment, derived from the working
/// directory: scratch space, dictionary uploads, and the store.
pub struct Dir {
    pub workdir: String,
    pub temp: String,
    pub dict: String,
    pub db: String,
}

/// The files of one deployment.
pub struct File {
    pub db: String,
}

/// Explicit configuration value, constructed once at startup and passed
/// to every component that needs it.
pub struct Config {
    pub dir: Dir,
    pub file: File,
}

/// Derives the configuration paths from a working directory.
pub fn init_config(workdir: &str) -> (c: Config)
    ensures
        c.dir.workdir@ == workdir@,
        c.dir.temp@ == workdir@ + "/temp"@,
        c.dir.dict@ == workdir@ + "/dict"@,
        c.dir.db@ == workdir@ + "/db"@,
        c.file.db@ == workdir@ + "/db"@ + "/db.sqlite"@,
{
    let dir = Dir {
        workdir: workdir.to_owned(),
        temp: workdir.to_owned().concat("/temp"),
        dict: workdir.to_owned().concat("/dict"),
        db: workdir.to_owned().concat("/db"),
    };
    let db_file = workdir.to_owned().concat("/db").concat("/db.sqlite");
    Config { dir, file: File { db: db_file } }
}

pub fn get_dir<'a>(config: &'a Config) -> (r: &'a Dir)
    ensures
        r == &config.dir,
{
    &config.dir
}

pub fn get_file<'a>(config: &'a Config) -> (r: &'a File)
    ensures
        r == &config.file,
{
    &config.file
}

} // verus!
