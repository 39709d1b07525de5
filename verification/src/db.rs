//! Pure parts of the hosted-database commands.
//!
//! The commands themselves are glue around the remote API: they prompt,
//! show spinners and tables, and POST JSON — all host work.  What they
//! decide is here: the response shapes they deserialize into, whether a plan
//! carries any change, the connection string shown for a new database, the
//! dump-file name normalization, and the fixed region list with its
//! membership and default-choice rules.

use std::collections::HashMap;
use vstd::prelude::*;
use vstd::string::StrSliceExecFns;
use vstd::string::StringExecFns;

verus! {

/// One named profile of the AWS CLI credentials file.
#[derive(Debug, Clone)]
pub struct AWSCLICredentials {
    pub aws_access_key_id: String,
    pub aws_secret_access_key: String,
}

/// What the service answers when a hosted database is provisioned.
#[derive(Debug, Clone)]
pub struct NewDbResponse {
    pub id: String,
    pub alias: String,
    pub user: String,
    pub password: String,
}

/// One table of a plan: column headers and the affected records.
#[derive(Debug, Clone)]
pub struct PlanMeta {
    pub columns: Vec<String>,
    pub records: Vec<Vec<String>>,
}

/// What the service answers for plan, apply and sync: per table, the
/// records to create, update, replace and delete.
#[allow(non_snake_case)]
#[derive(Debug, Clone)]
pub struct PlanResponse {
    pub iasqlPlanVersion: i32,
    pub toCreate: HashMap<String, PlanMeta>,
    pub toUpdate: HashMap<String, PlanMeta>,
    pub toReplace: HashMap<String, PlanMeta>,
    pub toDelete: HashMap<String, PlanMeta>,
}

/// A plan with no table in any of the four groups changes nothing; the
/// command then reports that no difference was detected.
pub open spec fn plan_changes_nothing(p: &PlanResponse) -> bool {
    &&& p.toCreate@.is_empty()
    &&& p.toUpdate@.is_empty()
    &&& p.toReplace@.is_empty()
    &&& p.toDelete@.is_empty()
}

impl PlanResponse {
    /// Whether the plan carries no change at all.
    pub fn is_empty(&self) -> (r: bool)
        ensures
            r == plan_changes_nothing(self),
    {
        self.toCreate.is_empty() && self.toUpdate.is_empty() && self.toReplace.is_empty()
            && self.toDelete.is_empty()
    }
}

pub open spec fn pg_connection_string_spec(
    user: Seq<char>,
    password: Seq<char>,
    server: Seq<char>,
    db: Seq<char>,
) -> Seq<char> {
    "postgres://"@ + user + ":"@ + password + "@"@ + server + "/"@ + db
}

impl NewDbResponse {
    /// The PostgreSQL connection string shown once after provisioning.
    pub fn pg_connection_string(&self, server: &str) -> (r: String)
        ensures
            r@ == pg_connection_string_spec(self.user@, self.password@, server@, self.id@),
    {
        let mut r = "postgres://".to_owned();
        r.append(self.user.as_str());
        r.append(":");
        r.append(self.password.as_str());
        r.append("@");
        r.append(server);
        r.append("/");
        r.append(self.id.as_str());
        proof {
            assert(r@ =~= pg_connection_string_spec(
                self.user@,
                self.password@,
                server@,
                self.id@,
            ));
        }
        r
    }
}

pub open spec fn aws_region_names() -> Seq<Seq<char>> {
    seq![
        "ap-northeast-1"@,
        "ap-northeast-2"@,
        "ap-northeast-3"@,
        "ap-south-1"@,
        "ap-southeast-1"@,
        "ap-southeast-2"@,
        "ca-central-1"@,
        "eu-central-1"@,
        "eu-north-1"@,
        "eu-west-1"@,
        "eu-west-2"@,
        "eu-west-3"@,
        "sa-east-1"@,
        "us-east-1"@,
        "us-east-2"@,
        "us-west-1"@,
        "us-west-2"@,
    ]
}

/// The EC2 regions offered for selection: the ones usable without opt-in,
/// in alphabetical order.
pub fn get_aws_regions() -> (r: Vec<String>)
    ensures
        r.deep_view() == aws_region_names(),
{
    let mut v: Vec<String> = Vec::new();
    v.push("ap-northeast-1".to_owned());
    v.push("ap-northeast-2".to_owned());
    v.push("ap-northeast-3".to_owned());
    v.push("ap-south-1".to_owned());
    v.push("ap-southeast-1".to_owned());
    v.push("ap-southeast-2".to_owned());
    v.push("ca-central-1".to_owned());
    v.push("eu-central-1".to_owned());
    v.push("eu-north-1".to_owned());
    v.push("eu-west-1".to_owned());
    v.push("eu-west-2".to_owned());
    v.push("eu-west-3".to_owned());
    v.push("sa-east-1".to_owned());
    v.push("us-east-1".to_owned());
    v.push("us-east-2".to_owned());
    v.push("us-west-1".to_owned());
    v.push("us-west-2".to_owned());
    proof {
        assert(v.deep_view() =~= aws_region_names());
    }
    v
}

/// Whether some entry of `names` reads `name`.
pub open spec fn has_name(names: Seq<String>, name: Seq<char>) -> bool {
    exists|j: int| 0 <= j < names.len() && names[j]@ == name
}

/// Whether `name` is among `names` — how a database name given on the
/// command line is checked against the hosted list.
pub fn contains_name(names: &Vec<String>, name: &String) -> (r: bool)
    ensures
        r == has_name(names@, name@),
{
    let mut i: usize = 0;
    while i < names.len()
        invariant
            0 <= i <= names.len(),
            forall|j: int| 0 <= j < i ==> names@[j]@ != name@,
        decreases names.len() - i,
    {
        if names[i] == *name {
            assert(names@[i as int]@ == name@);
            return true;
        }
        i += 1;
    }
    false
}

/// The first index at which `name` occurs, if any — how the default region
/// is picked from the fixed list.
pub fn position_of(names: &Vec<String>, name: &String) -> (r: Option<usize>)
    ensures
        (match r {
            Some(j) => j < names@.len() && names@[j as int]@ == name@ && forall|k: int|
                0 <= k < j ==> names@[k]@ != name@,
            None => !has_name(names@, name@),
        }),
{
    let mut i: usize = 0;
    while i < names.len()
        invariant
            0 <= i <= names.len(),
            forall|j: int| 0 <= j < i ==> names@[j]@ != name@,
        decreases names.len() - i,
    {
        if names[i] == *name {
            assert(names@[i as int]@ == name@);
            return Some(i);
        }
        i += 1;
    }
    None
}

pub open spec fn ends_with_sql(s: Seq<char>) -> bool {
    s.len() >= 4 && s.subrange(s.len() - 4, s.len() as int) == ".sql"@
}

/// The dump-file name an export writes to: the given name, with `.sql`
/// appended when it does not already end so.
pub open spec fn sql_dump_file_name_spec(s: Seq<char>) -> Seq<char> {
    if ends_with_sql(s) {
        s
    } else {
        s + ".sql"@
    }
}

pub fn sql_dump_file_name(dump_file: String) -> (r: String)
    ensures
        r@ == sql_dump_file_name_spec(dump_file@),
{
    proof {
        reveal_strlit(".sql");
    }
    let n = dump_file.as_str().unicode_len();
    let suffixed = n >= 4 && {
        let s = dump_file.as_str();
        s.get_char(n - 4) == '.' && s.get_char(n - 3) == 's' && s.get_char(n - 2) == 'q'
            && s.get_char(n - 1) == 'l'
    };
    if suffixed {
        proof {
            assert(dump_file@.subrange(dump_file@.len() - 4, dump_file@.len() as int)
                =~= ".sql"@);
        }
        dump_file
    } else {
        proof {
            if dump_file@.len() >= 4 {
                let sub = dump_file@.subrange(dump_file@.len() - 4, dump_file@.len() as int);
                assert(sub[0] == dump_file@[dump_file@.len() - 4]);
                assert(sub[1] == dump_file@[dump_file@.len() - 3]);
                assert(sub[2] == dump_file@[dump_file@.len() - 2]);
                assert(sub[3] == dump_file@[dump_file@.len() - 1]);
                assert(sub != ".sql"@);
            }
        }
        let mut r = dump_file;
        r.append(".sql");
        r
    }
}

} // verus!
