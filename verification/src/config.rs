//! Settings of the services: where the database, the queue and the
//! migrations are, with the defaults that apply when the environment is
//! silent.

use vstd::prelude::*;
use vstd::string::*;

verus! {

/// The database file used when `DB_PATH` is not set.
pub const DEFAULT_DB_PATH: &'static str = "services/reddit_scraper.db";

/// The RabbitMQ address used when `RABBITMQ_URL` is not set.
pub const DEFAULT_RABBITMQ_URL: &'static str = "localhost:5672/test-vhost";

/// The queue that carries posts from the scraper to the worker.
pub const QUEUE_NAME: &'static str = "testqueue";

/// The migration directory inside the Docker image.
pub const DOCKER_MIGRATIONS_DIR: &'static str = "/usr/src/app/databases/kubernetes_subreddit";

/// The migration directory relative to the worker's package directory.
pub const LOCAL_MIGRATIONS_DIR: &'static str = "../../databases/kubernetes_subreddit";

/// A value taken from the environment, or the default where it is unset.
pub open spec fn setting_or(from_env: Option<String>, default: Seq<char>) -> Seq<char> {
    match from_env {
        Some(v) => v@,
        None => default,
    }
}

/// The database path: `DB_PATH` where it is set, else the default.
pub fn db_path(from_env: Option<String>) -> (path: String)
    ensures
        path@ == setting_or(from_env, DEFAULT_DB_PATH@),
        from_env matches Some(v) ==> path@ == v@,
        from_env is None ==> path@ == DEFAULT_DB_PATH@,
{
    match from_env {
        Some(v) => v,
        None => DEFAULT_DB_PATH.to_owned(),
    }
}

/// The RabbitMQ address: `RABBITMQ_URL` where it is set, else the default.
pub fn rabbitmq_url(from_env: Option<String>) -> (url: String)
    ensures
        url@ == setting_or(from_env, DEFAULT_RABBITMQ_URL@),
        from_env matches Some(v) ==> url@ == v@,
        from_env is None ==> url@ == DEFAULT_RABBITMQ_URL@,
{
    match from_env {
        Some(v) => v,
        None => DEFAULT_RABBITMQ_URL.to_owned(),
    }
}

/// A relative path appended to a directory: a `/` goes between them unless
/// the directory is empty or already ends in one.
pub open spec fn joined(dir: Seq<char>, rel: Seq<char>) -> Seq<char> {
    if dir.len() > 0 && dir.last() != '/' {
        dir + seq!['/'] + rel
    } else {
        dir + rel
    }
}

/// The migration directory: the one inside the Docker image on Linux when
/// `DOCKER_ENV` is set, else the one next to the package directory.
pub fn migrations_dir(on_linux: bool, docker_env_set: bool, package_dir: &str) -> (dir: String)
    ensures
        on_linux && docker_env_set ==> dir@ == DOCKER_MIGRATIONS_DIR@,
        !(on_linux && docker_env_set) ==> dir@ == joined(package_dir@, LOCAL_MIGRATIONS_DIR@),
{
    if on_linux && docker_env_set {
        DOCKER_MIGRATIONS_DIR.to_owned()
    } else {
        let mut dir = package_dir.to_owned();
        let n: usize = package_dir.unicode_len();
        if n > 0 && package_dir.get_char(n - 1) != '/' {
            dir.append("/");
            proof {
                reveal_strlit("/");
                assert("/"@ =~= seq!['/']);
            }
        }
        dir.append(LOCAL_MIGRATIONS_DIR);
        dir
    }
}

/// A value set in the environment is used as it is, whatever it holds; the
/// default is used only when nothing is set.
pub proof fn law_set_value_wins(v: String, default: Seq<char>)
    ensures
        setting_or(Some(v), default) == v@,
        setting_or(None, default) == default,
{
}

} // verus!
