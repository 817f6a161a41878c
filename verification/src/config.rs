//! Where the helper interpreter, scratch files and saved files live.

use crate::models::DeviceConfig;
use crate::text::{
    chars_of, decimal, decimal_string, is_digit, joined, lemma_decimal_is_injective,
    lemma_decimal_reads_back,
};
use vstd::prelude::*;

verus! {

/// `name` resolved against the directory `dir`, as on a system whose path
/// separator is `/`: an absolute name stands alone, otherwise it follows the
/// directory, separated from it by exactly one added `/` unless the directory
/// is empty or already ends in one.
pub open spec fn join_path(dir: Seq<char>, name: Seq<char>) -> Seq<char> {
    if name.len() > 0 && name[0] == '/' {
        name
    } else if dir.len() == 0 || dir.last() == '/' {
        dir + name
    } else {
        dir + seq!['/'] + name
    }
}

/// Resolves `name` against the directory `dir`.
pub fn join(dir: &str, name: &str) -> (r: String)
    ensures
        r@ == join_path(dir@, name@),
{
    let d = chars_of(dir);
    let n = chars_of(name);
    if n.len() > 0 && n[0] == '/' {
        String::from_str(name)
    } else if d.len() == 0 || d[d.len() - 1] == '/' {
        joined(dir, name)
    } else {
        proof {
            reveal_strlit("/");
        }
        let mut r = joined(dir, "/");
        r.append(name);
        assert("/"@ =~= seq!['/']);
        r
    }
}

/// The name of the scratch file of request number `request`: the number, an
/// underscore, and the stem, so that the stem's extension stays at the end.
pub open spec fn request_file_name(stem: Seq<char>, request: u64) -> Seq<char> {
    decimal(request as nat) + seq!['_'] + stem
}

/// Requests with different numbers use different scratch files, whatever the
/// directory and the stem.
pub proof fn lemma_request_paths_differ(dir: Seq<char>, stem: Seq<char>, a: u64, b: u64)
    requires
        a != b,
    ensures
        request_file_name(stem, a) != request_file_name(stem, b),
        join_path(dir, request_file_name(stem, a)) != join_path(dir, request_file_name(stem, b)),
{
    let da = decimal(a as nat);
    let db = decimal(b as nat);
    let na = request_file_name(stem, a);
    let nb = request_file_name(stem, b);
    lemma_decimal_reads_back(a as nat);
    lemma_decimal_reads_back(b as nat);
    if na == nb {
        assert(da.len() == db.len());
        assert(da =~= na.take(da.len() as int));
        assert(db =~= nb.take(db.len() as int));
        lemma_decimal_is_injective(a as nat, b as nat);
    }
    assert(na[0] == da[0] && nb[0] == db[0]);
    assert(is_digit(da[0]) && is_digit(db[0]));
    let prefix = if dir.len() == 0 || dir.last() == '/' {
        dir
    } else {
        dir + seq!['/']
    };
    assert(join_path(dir, na) =~= prefix + na);
    assert(join_path(dir, nb) =~= prefix + nb);
    if prefix + na == prefix + nb {
        assert(na =~= (prefix + na).skip(prefix.len() as int));
        assert(nb =~= (prefix + nb).skip(prefix.len() as int));
    }
}

/// Settings of the delegated variant, fixed when the host starts.
#[derive(Debug, Clone)]
pub struct AppConfig {
    pub device: DeviceConfig,
    pub python_path: String,
    pub temp_dir: String,
    pub output_dir: String,
}

impl AppConfig {
    /// Where a project-local interpreter would be, seen from `current_dir`.
    pub open spec fn venv_python_text(current_dir: Seq<char>) -> Seq<char> {
        join_path(current_dir, "../../venv/bin/python3"@)
    }

    /// The interpreter to run: the project-local one if it exists, else
    /// whatever `python3` the system finds.
    pub open spec fn python_path_text(current_dir: Seq<char>, venv_exists: bool) -> Seq<char> {
        if venv_exists {
            Self::venv_python_text(current_dir)
        } else {
            "python3"@
        }
    }

    /// The path at which the host should look for a project-local interpreter.
    pub fn venv_python(current_dir: &str) -> (r: String)
        ensures
            r@ == Self::venv_python_text(current_dir@),
    {
        join(current_dir, "../../venv/bin/python3")
    }

    /// Chooses the interpreter, given whether the project-local one exists.
    pub fn get_python_path(current_dir: &str, venv_exists: bool) -> (r: String)
        ensures
            r@ == Self::python_path_text(current_dir@, venv_exists),
    {
        if venv_exists {
            Self::venv_python(current_dir)
        } else {
            String::from_str("python3")
        }
    }

    /// The configuration for a host whose home directory is `home_dir` and
    /// which runs in `current_dir`: the default device, scratch files under
    /// `/tmp`, saved files under the home directory.
    pub fn new(home_dir: &str, current_dir: &str, venv_exists: bool) -> (r: AppConfig)
        ensures
            r.device == DeviceConfig::standard(),
            r.python_path@ == Self::python_path_text(current_dir@, venv_exists),
            r.temp_dir@ == "/tmp"@,
            r.output_dir@ == home_dir@,
    {
        AppConfig {
            device: DeviceConfig::default(),
            python_path: Self::get_python_path(current_dir, venv_exists),
            temp_dir: String::from_str("/tmp"),
            output_dir: String::from_str(home_dir),
        }
    }

    /// The path of the scratch file `filename`.
    pub fn get_temp_file(&self, filename: &str) -> (r: String)
        ensures
            r@ == join_path(self.temp_dir@, filename@),
    {
        join(self.temp_dir.as_str(), filename)
    }

    /// The path of the scratch file of request number `request`, named after `stem`.
    pub fn request_temp_file(&self, stem: &str, request: u64) -> (r: String)
        ensures
            r@ == join_path(self.temp_dir@, request_file_name(stem@, request)),
    {
        proof {
            reveal_strlit("_");
        }
        let mut name = decimal_string(request);
        name.append("_");
        name.append(stem);
        assert(name@ =~= request_file_name(stem@, request));
        join(self.temp_dir.as_str(), name.as_str())
    }

    /// The path of the saved file `filename`.
    pub fn get_output_file(&self, filename: &str) -> (r: String)
        ensures
            r@ == join_path(self.output_dir@, filename@),
    {
        join(self.output_dir.as_str(), filename)
    }
}

} // verus!
