//! The environment variables of the service, and the check that the keys of
//! the `.env` file and the variants of [`Env`] map one to one.
use crate::password_policy::{char_is_uppercase, uppercase_property};
use crate::text::{contains_text, same_text, texts};
use vstd::prelude::*;
use vstd::string::StrSliceExecFns;

verus! {

/// Errors of the environment check.
#[derive(Clone, Debug)]
pub enum EnvError {
    /// The `.env` file could not be loaded; the loader's message.
    Error(String),
    /// A variable is not set; its name.
    MissingEnv(String),
    /// A key of the file is not in SCREAMING_SNAKE_CASE.
    WrongFormat(String),
    /// A key of the file names no variant.
    MissingEnvFromEnum(String),
    /// Variants whose name is no key of the file.
    MissingEnvFromFile(Vec<String>),
    /// A key stands twice in the file.
    DuplicatedEnvInFile(String),
    /// Two variants have the same name.
    DuplicatedEnvInEnum { variant: Env, translation: String },
    /// Reading the file failed; the message.
    Io(String),
    Other(String),
}

/// Errors of the configuration.
#[derive(Clone, Debug)]
pub enum Error {
    Env(EnvError),
    Other(String),
}

/// The environment variables that the service reads.
#[derive(Clone, Copy, Debug, PartialEq, Eq, Structural, PartialOrd, Ord, Hash)]
pub enum Env {
    ServerUrl,
    ServerPort,
    ClientUrl,
    ClientPort,
    DbAdminPostgresPassword,
    DbPostgresAdambPassword,
    DatabaseUrl,
}

/// The configuration of the service, built once the environment has been checked.
#[derive(Clone, Copy, Debug)]
pub struct Config;

/// Every variant, in declaration order.
pub open spec fn all_envs() -> Seq<Env> {
    seq![
        Env::ServerUrl,
        Env::ServerPort,
        Env::ClientUrl,
        Env::ClientPort,
        Env::DbAdminPostgresPassword,
        Env::DbPostgresAdambPassword,
        Env::DatabaseUrl,
    ]
}

/// The names of the variants, in declaration order.
pub open spec fn env_names() -> Seq<Seq<char>> {
    all_envs().map_values(|e: Env| e.name())
}

/// The variant whose name a text is, if any.
pub open spec fn env_named(k: Seq<char>) -> Option<Env> {
    if k == "SERVER_URL"@ {
        Some(Env::ServerUrl)
    } else if k == "SERVER_PORT"@ {
        Some(Env::ServerPort)
    } else if k == "CLIENT_URL"@ {
        Some(Env::ClientUrl)
    } else if k == "CLIENT_PORT"@ {
        Some(Env::ClientPort)
    } else if k == "DB_ADMIN_POSTGRES_PASSWORD"@ {
        Some(Env::DbAdminPostgresPassword)
    } else if k == "DB_POSTGRES_ADAMB_PASSWORD"@ {
        Some(Env::DbPostgresAdambPassword)
    } else if k == "DATABASE_URL"@ {
        Some(Env::DatabaseUrl)
    } else {
        None
    }
}

/// Every character is an uppercase letter or an underscore.
pub open spec fn is_screaming_snake_case(k: Seq<char>) -> bool {
    forall|j: int| 0 <= j < k.len() ==> uppercase_property(#[trigger] k[j]) || k[j] == '_'
}

/// The outcome of checking the keys of the `.env` file in order: each key is
/// in SCREAMING_SNAKE_CASE, names a variant and stands once; the first key
/// that fails decides the error.
pub open spec fn file_envs_outcome(keys: Seq<String>) -> Result<Seq<String>, Error>
    decreases keys.len(),
{
    if keys.len() == 0 {
        Ok(Seq::empty())
    } else {
        match file_envs_outcome(keys.drop_last()) {
            Err(e) => Err(e),
            Ok(seen) => {
                let k = keys.last();
                if !is_screaming_snake_case(k@) {
                    Err(Error::Env(EnvError::WrongFormat(k)))
                } else if env_named(k@) is None {
                    Err(Error::Env(EnvError::MissingEnvFromEnum(k)))
                } else if texts(seen).contains(k@) {
                    Err(Error::Env(EnvError::DuplicatedEnvInFile(k)))
                } else {
                    Ok(seen.push(k))
                }
            },
        }
    }
}

/// The keys of the file pass the checks and every variant names one of them.
pub open spec fn env_file_accepted(keys: Seq<String>) -> bool {
    match file_envs_outcome(keys) {
        Ok(seen) => forall|i: int|
            0 <= i < env_names().len() ==> texts(seen).contains(#[trigger] env_names()[i]),
        Err(_) => false,
    }
}

/// The error that checking the keys of the file ends with: the error of the
/// first key that fails, or else the variants that name no key of the file.
pub open spec fn env_file_error(keys: Seq<String>, e: Error) -> bool {
    match file_envs_outcome(keys) {
        Err(first) => e == first,
        Ok(seen) => match e {
            Error::Env(EnvError::MissingEnvFromFile(missing)) => texts(missing@) == missing_from(
                env_names(),
                texts(seen),
            ),
            _ => false,
        },
    }
}

/// The texts of `a`, in order, that `b` does not hold.
pub open spec fn missing_from(a: Seq<Seq<char>>, b: Seq<Seq<char>>) -> Seq<Seq<char>>
    decreases a.len(),
{
    if a.len() == 0 {
        Seq::empty()
    } else {
        let rest = missing_from(a.drop_last(), b);
        if b.contains(a.last()) {
            rest
        } else {
            rest.push(a.last())
        }
    }
}

proof fn lemma_missing_from_empty(a: Seq<Seq<char>>, b: Seq<Seq<char>>)
    ensures
        missing_from(a, b).len() == 0 <==> (forall|i: int| 0 <= i < a.len() ==> b.contains(#[trigger] a[i])),
    decreases a.len(),
{
    if a.len() > 0 {
        lemma_missing_from_empty(a.drop_last(), b);
        assert forall|i: int| 0 <= i < a.len() - 1 implies #[trigger] a.drop_last()[i] == a[i] by {}
        if missing_from(a, b).len() == 0 {
            assert forall|i: int| 0 <= i < a.len() implies b.contains(#[trigger] a[i]) by {
                if i < a.len() - 1 {
                    assert(a.drop_last()[i] == a[i]);
                }
            }
        }
        if forall|i: int| 0 <= i < a.len() ==> b.contains(#[trigger] a[i]) {
            assert forall|i: int| 0 <= i < a.drop_last().len() implies b.contains(#[trigger] a.drop_last()[i]) by {
                assert(a.drop_last()[i] == a[i]);
            }
            assert(b.contains(a[a.len() - 1]));
        }
    }
}

/// No two variants have one name.
proof fn lemma_env_names_distinct()
    ensures
        env_names().len() == 7,
        forall|i: int, j: int|
            0 <= i < 7 && 0 <= j < 7 && i != j ==> #[trigger] env_names()[i] != #[trigger] env_names()[j],
{
    reveal_strlit("SERVER_URL");
    reveal_strlit("SERVER_PORT");
    reveal_strlit("CLIENT_URL");
    reveal_strlit("CLIENT_PORT");
    reveal_strlit("DB_ADMIN_POSTGRES_PASSWORD");
    reveal_strlit("DB_POSTGRES_ADAMB_PASSWORD");
    reveal_strlit("DATABASE_URL");
    let n = env_names();
    assert(n =~= seq![
        "SERVER_URL"@,
        "SERVER_PORT"@,
        "CLIENT_URL"@,
        "CLIENT_PORT"@,
        "DB_ADMIN_POSTGRES_PASSWORD"@,
        "DB_POSTGRES_ADAMB_PASSWORD"@,
        "DATABASE_URL"@,
    ]);
    assert(n[0].len() == 10 && n[1].len() == 11 && n[2].len() == 10 && n[3].len() == 11);
    assert(n[4].len() == 26 && n[5].len() == 26 && n[6].len() == 12);
    assert(n[0][0] != n[2][0]);
    assert(n[1][0] != n[3][0]);
    assert(n[4][3] != n[5][3]);
}

/// Once a prefix of the keys fails, the whole list fails with the same error.
proof fn lemma_file_envs_error_persists(keys: Seq<String>, k: int)
    requires
        0 <= k <= keys.len(),
        file_envs_outcome(keys.subrange(0, k)) is Err,
    ensures
        file_envs_outcome(keys) == file_envs_outcome(keys.subrange(0, k)),
    decreases keys.len() - k,
{
    if k == keys.len() {
        assert(keys.subrange(0, k) =~= keys);
    } else {
        let next = keys.subrange(0, k + 1);
        assert(next.drop_last() =~= keys.subrange(0, k));
        lemma_file_envs_error_persists(keys, k + 1);
    }
}

/// Reads `s` as one of the names that `env_named` knows.
fn env_from_text(s: &str) -> (r: Option<Env>)
    ensures
        r == env_named(s@),
{
    if same_text(s, "SERVER_URL") {
        Some(Env::ServerUrl)
    } else if same_text(s, "SERVER_PORT") {
        Some(Env::ServerPort)
    } else if same_text(s, "CLIENT_URL") {
        Some(Env::ClientUrl)
    } else if same_text(s, "CLIENT_PORT") {
        Some(Env::ClientPort)
    } else if same_text(s, "DB_ADMIN_POSTGRES_PASSWORD") {
        Some(Env::DbAdminPostgresPassword)
    } else if same_text(s, "DB_POSTGRES_ADAMB_PASSWORD") {
        Some(Env::DbPostgresAdambPassword)
    } else if same_text(s, "DATABASE_URL") {
        Some(Env::DatabaseUrl)
    } else {
        None
    }
}

fn screaming_snake_case(k: &str) -> (r: bool)
    ensures
        r == is_screaming_snake_case(k@),
{
    let n = k.unicode_len();
    let mut i: usize = 0;
    while i < n
        invariant
            n == k@.len(),
            i <= n,
            forall|j: int| 0 <= j < i ==> uppercase_property(#[trigger] k@[j]) || k@[j] == '_',
        decreases n - i,
    {
        let c = k.get_char(i);
        if !(char_is_uppercase(c) || c == '_') {
            return false;
        }
        i = i + 1;
    }
    true
}

impl Env {
    /// The file that lists the variables.
    pub const ENV_PATH: &'static str = ".env";

    /// The name of the variable, in SCREAMING_SNAKE_CASE.
    pub open spec fn name(self) -> Seq<char> {
        match self {
            Env::ServerUrl => "SERVER_URL"@,
            Env::ServerPort => "SERVER_PORT"@,
            Env::ClientUrl => "CLIENT_URL"@,
            Env::ClientPort => "CLIENT_PORT"@,
            Env::DbAdminPostgresPassword => "DB_ADMIN_POSTGRES_PASSWORD"@,
            Env::DbPostgresAdambPassword => "DB_POSTGRES_ADAMB_PASSWORD"@,
            Env::DatabaseUrl => "DATABASE_URL"@,
        }
    }

    /// The name of the variable, in SCREAMING_SNAKE_CASE.
    pub fn as_str(&self) -> (r: &'static str)
        ensures
            r@ == self.name(),
    {
        match self {
            Env::ServerUrl => "SERVER_URL",
            Env::ServerPort => "SERVER_PORT",
            Env::ClientUrl => "CLIENT_URL",
            Env::ClientPort => "CLIENT_PORT",
            Env::DbAdminPostgresPassword => "DB_ADMIN_POSTGRES_PASSWORD",
            Env::DbPostgresAdambPassword => "DB_POSTGRES_ADAMB_PASSWORD",
            Env::DatabaseUrl => "DATABASE_URL",
        }
    }

    /// The name of the variable as an owned string.
    pub fn to_name(&self) -> (r: String)
        ensures
            r@ == self.name(),
    {
        String::from_str(self.as_str())
    }

    /// The variant with the given name.
    pub fn from_name(s: &str) -> (r: Option<Env>)
        ensures
            r == env_named(s@),
    {
        env_from_text(s)
    }

    /// Every variant, in declaration order.
    pub fn all() -> (r: Vec<Env>)
        ensures
            r@ == all_envs(),
    {
        let r = vec![
            Env::ServerUrl,
            Env::ServerPort,
            Env::ClientUrl,
            Env::ClientPort,
            Env::DbAdminPostgresPassword,
            Env::DbPostgresAdambPassword,
            Env::DatabaseUrl,
        ];
        proof {
            assert(r@ =~= all_envs());
        }
        r
    }

    /// The names of all variants; two variants with one name are an error.
    pub fn get_enum_envs() -> (r: Result<Vec<String>, Error>)
        ensures
            r is Ok,
            r matches Ok(names) ==> texts(names@) == env_names(),
    {
        let all = Env::all();
        let mut acc: Vec<String> = Vec::new();
        let mut i: usize = 0;
        while i < all.len()
            invariant
                all@ == all_envs(),
                i <= all@.len(),
                texts(acc@) =~= env_names().subrange(0, i as int),
            decreases all@.len() - i,
        {
            let env = all[i];
            let name = env.to_name();
            proof {
                assert(env_names()[i as int] == name@);
            }
            if contains_text(&acc, name.as_str()) {
                proof {
                    let j = choose|j: int| 0 <= j < texts(acc@).len() && texts(acc@)[j] == name@;
                    assert(texts(acc@)[j] == env_names().subrange(0, i as int)[j]);
                    assert(env_names()[j] == env_names()[i as int]);
                    lemma_env_names_distinct();
                    assert(false);
                }
                return Err(Error::Env(EnvError::DuplicatedEnvInEnum { variant: env, translation: name }));
            }
            acc.push(name);
            proof {
                assert(texts(acc@) =~= texts(acc@).drop_last().push(name@));
            }
            i = i + 1;
        }
        proof {
            assert(env_names().subrange(0, 7) =~= env_names());
        }
        Ok(acc)
    }

    /// Checks that every variant names a key of the file. (A key of the file
    /// that names no variant is caught while the file is read.)
    pub fn check_mapping(enum_envs: Vec<String>, file_envs: Vec<String>) -> (r: Result<(), Error>)
        ensures
            r is Ok <==> (forall|i: int| 0 <= i < enum_envs@.len() ==> texts(file_envs@).contains(#[trigger] enum_envs@[i]@)),
            r matches Err(e) ==> e matches Error::Env(EnvError::MissingEnvFromFile(missing))
                && texts(missing@) == missing_from(texts(enum_envs@), texts(file_envs@)),
    {
        let mut missing: Vec<String> = Vec::new();
        let mut i: usize = 0;
        while i < enum_envs.len()
            invariant
                i <= enum_envs@.len(),
                texts(missing@) == missing_from(texts(enum_envs@).subrange(0, i as int), texts(file_envs@)),
            decreases enum_envs@.len() - i,
        {
            let name = enum_envs[i].clone();
            let present = contains_text(&file_envs, name.as_str());
            proof {
                let a = texts(enum_envs@).subrange(0, i as int + 1);
                assert(a.drop_last() =~= texts(enum_envs@).subrange(0, i as int));
                assert(a.last() == name@);
            }
            if !present {
                missing.push(name);
                proof {
                    assert(texts(missing@) =~= texts(missing@).drop_last().push(name@));
                }
            }
            i = i + 1;
        }
        proof {
            assert(texts(enum_envs@).subrange(0, enum_envs@.len() as int) =~= texts(enum_envs@));
            lemma_missing_from_empty(texts(enum_envs@), texts(file_envs@));
            assert forall|i: int| 0 <= i < enum_envs@.len() implies #[trigger] enum_envs@[i]@ == texts(enum_envs@)[i] by {}
        }
        if missing.len() == 0 {
            Ok(())
        } else {
            Err(Error::Env(EnvError::MissingEnvFromFile(missing)))
        }
    }

    /// Checks the keys of the file against the names of the variants.
    pub fn compare_envs(other: Vec<String>) -> (r: Result<(), Error>)
        ensures
            r is Ok <==> (forall|i: int| 0 <= i < env_names().len() ==> texts(other@).contains(#[trigger] env_names()[i])),
            r matches Err(e) ==> e matches Error::Env(EnvError::MissingEnvFromFile(missing))
                && texts(missing@) == missing_from(env_names(), texts(other@)),
    {
        let enum_envs = match Env::get_enum_envs() {
            Ok(names) => names,
            Err(e) => {
                return Err(e);
            },
        };
        proof {
            assert forall|i: int| 0 <= i < enum_envs@.len() implies #[trigger] enum_envs@[i]@ == env_names()[i] by {
                assert(texts(enum_envs@)[i] == enum_envs@[i]@);
            }
        }
        Env::check_mapping(enum_envs, other)
    }

    /// Checks the keys read from the `.env` file, in the order of the file,
    /// and returns them: each is in SCREAMING_SNAKE_CASE, names a variant and
    /// stands once.
    pub fn get_file_envs(keys: Vec<String>) -> (r: Result<Vec<String>, Error>)
        ensures
            r matches Ok(v) ==> file_envs_outcome(keys@) == Ok::<Seq<String>, Error>(v@),
            r matches Err(e) ==> file_envs_outcome(keys@) == Err::<Seq<String>, Error>(e),
    {
        let mut seen: Vec<String> = Vec::new();
        let mut i: usize = 0;
        while i < keys.len()
            invariant
                i <= keys@.len(),
                file_envs_outcome(keys@.subrange(0, i as int)) == Ok::<Seq<String>, Error>(seen@),
            decreases keys@.len() - i,
        {
            let key = keys[i].clone();
            let ghost prefix = keys@.subrange(0, i as int + 1);
            proof {
                assert(prefix.drop_last() =~= keys@.subrange(0, i as int));
                assert(prefix.last() == key);
            }
            if !screaming_snake_case(key.as_str()) {
                proof {
                    lemma_file_envs_error_persists(keys@, i as int + 1);
                }
                return Err(Error::Env(EnvError::WrongFormat(key)));
            }
            if env_from_text(key.as_str()).is_none() {
                proof {
                    lemma_file_envs_error_persists(keys@, i as int + 1);
                }
                return Err(Error::Env(EnvError::MissingEnvFromEnum(key)));
            }
            if contains_text(&seen, key.as_str()) {
                proof {
                    lemma_file_envs_error_persists(keys@, i as int + 1);
                }
                return Err(Error::Env(EnvError::DuplicatedEnvInFile(key)));
            }
            seen.push(key);
            i = i + 1;
        }
        proof {
            assert(keys@.subrange(0, keys@.len() as int) =~= keys@);
        }
        Ok(seen)
    }

    /// Checks the keys read from the `.env` file and that they map one to one
    /// onto the variants.
    pub fn load_envs(keys: Vec<String>) -> (r: Result<(), Error>)
        ensures
            r is Ok <==> env_file_accepted(keys@),
            r matches Err(e) ==> env_file_error(keys@, e),
    {
        match Env::get_file_envs(keys) {
            Ok(seen) => Env::compare_envs(seen),
            Err(e) => Err(e),
        }
    }
}

impl Config {
    /// The address the server listens on.
    pub const APP_SOCKET_ADDR: &'static str = "127.0.0.1:5000";

    /// Builds the configuration from the keys of the `.env` file, in the
    /// order of the file, once they have been checked.
    pub fn new(keys: Vec<String>) -> (r: Result<Config, Error>)
        ensures
            r is Ok <==> env_file_accepted(keys@),
            r matches Err(e) ==> env_file_error(keys@, e),
    {
        match Env::load_envs(keys) {
            Ok(()) => Ok(Config),
            Err(e) => Err(e),
        }
    }
}

} // verus!
