//! Configuration and credential records, the task dispatch, and the
//! database-URL formatting. Reading and deserializing the files that fill
//! these records is the caller's business; the records themselves are plain
//! values.

use vstd::prelude::*;
use vstd::string::*;
use crate::paths::str_eq;

verus! {

/// The paths to configuration files.
#[derive(Debug)]
pub struct ConfigPaths {
    /// Path for lists of handled inspection files.
    pub up_files_out_dir: String,
    /// Path for the metadata-store credentials.
    pub credentials_path: String,
    /// Path for the inspection-pairing configuration.
    pub config_file_ef: String,
    /// Path for the relocation configuration.
    pub config_file_z: String,
}

/// The geometry of one plate type.
#[derive(Debug, Default)]
pub struct PlateLayout {
    pub well_per_row: u8,
    pub drops_per_well: u8,
}

/// The known plate types.
#[allow(non_snake_case)]
#[derive(Debug, Default)]
pub struct PlateTypes {
    pub CrystalQuickX: PlateLayout,
    pub MitegenInSitu: PlateLayout,
    pub MitegenInSitu_3_Drop: PlateLayout,
    pub FilmBatch: PlateLayout,
    pub ReferencePlate: PlateLayout,
}

/// One rotating-file log sink.
#[derive(Debug)]
pub struct LoggingConfig {
    pub filename: String,
    pub max_bytes: u32,
    pub no_files: u32,
    pub format: String,
    pub level: String,
}

/// The logging section of a configuration.
#[derive(Debug)]
pub struct Logging {
    pub rotating_file: LoggingConfig,
}

/// One job's configuration.
#[derive(Debug)]
pub struct Config {
    pub upload_dir: String,
    pub holding_dir: String,
    pub task: String,
    pub web_user: String,
    pub max_files: u32,
    pub max_files_in_batch: u32,
    pub thumb_width: u32,
    pub thumb_height: u32,
    pub types: PlateTypes,
    pub logging: Logging,
}

/// Credentials of the metadata store.
#[derive(Debug)]
pub struct Credentials {
    pub database: String,
    pub username: String,
    pub password: String,
    pub host: String,
    pub port: u32,
}

/// Why a configuration was refused.
#[derive(Debug)]
pub enum ConfigError {
    /// The task name selects no known job variant.
    UnknownTask { task: String },
}

/// The two job variants.
#[derive(Debug, PartialEq, Eq)]
pub enum JobKind {
    /// Container relocation.
    Z,
    /// Inspection pairing.
    EF,
}

/// Which job variant a configuration's task name selects.
pub fn parse_task(task: &str) -> (r: Result<JobKind, ConfigError>)
    ensures
        task@ == "Z"@ ==> (r matches Ok(k) && k is Z),
        task@ == "EF"@ ==> (r matches Ok(k) && k is EF),
        (task@ != "Z"@ && task@ != "EF"@) ==> (r matches Err(e)
            && e matches ConfigError::UnknownTask { task: t } && t@ == task@),
{
    proof {
        reveal_strlit("Z");
        reveal_strlit("EF");
        assert("Z"@.len() == 1);
        assert("EF"@.len() == 2);
    }
    if str_eq(task, "Z") {
        Ok(JobKind::Z)
    } else if str_eq(task, "EF") {
        Ok(JobKind::EF)
    } else {
        Err(ConfigError::UnknownTask { task: String::from_str(task) })
    }
}

/// The decimal digits, lowest weight last, of a number.
pub open spec fn dec_spec(n: nat) -> Seq<char>
    decreases n,
{
    if n < 10 {
        seq![dec_digit(n)]
    } else {
        dec_spec(n / 10).push(dec_digit(n % 10))
    }
}

/// The character of one decimal digit.
pub open spec fn dec_digit(d: nat) -> char {
    seq!['0', '1', '2', '3', '4', '5', '6', '7', '8', '9'][d as int]
}

fn digit_str(d: u32) -> (r: &'static str)
    requires
        d < 10,
    ensures
        r@ == seq![dec_digit(d as nat)],
{
    proof {
        reveal_strlit("0");
        reveal_strlit("1");
        reveal_strlit("2");
        reveal_strlit("3");
        reveal_strlit("4");
        reveal_strlit("5");
        reveal_strlit("6");
        reveal_strlit("7");
        reveal_strlit("8");
        reveal_strlit("9");
    }
    match d {
        0 => "0",
        1 => "1",
        2 => "2",
        3 => "3",
        4 => "4",
        5 => "5",
        6 => "6",
        7 => "7",
        8 => "8",
        _ => "9",
    }
}

/// A number written in decimal.
pub fn decimal_string(n: u32) -> (r: String)
    ensures
        r@ == dec_spec(n as nat),
    decreases n,
{
    if n < 10 {
        String::from_str(digit_str(n))
    } else {
        let mut s = decimal_string(n / 10);
        s.append(digit_str(n % 10));
        proof {
            assert(s@ =~= dec_spec((n / 10) as nat).push(dec_digit((n % 10) as nat)));
        }
        s
    }
}

/// The connection URL that the given credentials describe, with a pool of
/// exactly one connection.
pub open spec fn ispyb_url_spec(
    user: Seq<char>,
    pass: Seq<char>,
    host: Seq<char>,
    port: nat,
    db: Seq<char>,
) -> Seq<char> {
    "mysql://"@ + user + ":"@ + pass + "@"@ + host + ":"@ + dec_spec(port) + "/"@ + db
        + "?pool_min=1&pool_max=1"@
}

/// Format the metadata-store connection URL from its credentials.
pub fn parse_ispyb_url(creds: &Credentials) -> (r: String)
    ensures
        r@ == ispyb_url_spec(
            creds.username@,
            creds.password@,
            creds.host@,
            creds.port as nat,
            creds.database@,
        ),
{
    let mut r = String::from_str("mysql://");
    r.append(creds.username.as_str());
    r.append(":");
    r.append(creds.password.as_str());
    r.append("@");
    r.append(creds.host.as_str());
    r.append(":");
    let port = decimal_string(creds.port);
    r.append(port.as_str());
    r.append("/");
    r.append(creds.database.as_str());
    r.append("?pool_min=1&pool_max=1");
    proof {
        assert(r@ =~= ispyb_url_spec(
            creds.username@,
            creds.password@,
            creds.host@,
            creds.port as nat,
            creds.database@,
        ));
    }
    r
}

} // verus!
