//! Configuration for dialing the storage network: the user agent, the
//! dial timeout, and where temporary data may be off-loaded.

use vstd::prelude::*;
use vstd::string::StringSliceAdditionalSpecFns;

use crate::error::is_invalid_args;
use crate::error::Error;
use crate::text::first_nul;
use crate::text::has_nul;
use crate::text::marshal;
use crate::text::nul_msg_at;
use crate::time::Timestamp;

verus! {

/// The bytes of the optional temporary-directory argument; an absent
/// argument stands for the empty path.
pub open spec fn temp_dir_arg_bytes(temp_dir: Option<&str>) -> Seq<u8> {
    match temp_dir {
        Some(t) => t.spec_bytes(),
        None => Seq::<u8>::empty(),
    }
}

/// Defines configuration for contacting the storage network.
///
/// The marshalled fields hold the foreign-call-safe representation that is
/// handed to the foreign boundary when the configuration is used.
#[derive(Debug)]
pub struct Config {
    /// The marshalled user agent: its bytes with the terminator appended.
    user_agent_c: Vec<u8>,
    /// How long to wait for establishing a connection, in milliseconds, as
    /// the foreign boundary expects it.
    dial_timeout_milliseconds: i32,
    /// The marshalled temporary directory path; `None` when running only
    /// in memory.
    temp_directory_c: Option<Vec<u8>>,
    /// Identifies the application that is contacting the satellite.
    user_agent: String,
    /// How long the client should wait for establishing a connection to
    /// peers.
    dial_timeout: Timestamp,
    /// Path of a directory to be used for storing temporary files when
    /// running completely in memory is disabled.
    temp_dir: Option<String>,
    /// Specifies to only operate using memory, without off-loading data to
    /// disk.
    in_memory: bool,
}

impl Config {
    /// The characters of the user agent.
    pub closed spec fn spec_user_agent(&self) -> Seq<char> {
        self.user_agent@
    }

    /// The marshalled bytes of the user agent.
    pub closed spec fn spec_user_agent_c(&self) -> Seq<u8> {
        self.user_agent_c@
    }

    /// The dial timeout in milliseconds, as handed to the foreign boundary.
    pub closed spec fn spec_dial_timeout_milliseconds(&self) -> i32 {
        self.dial_timeout_milliseconds
    }

    /// The marshalled bytes of the temporary directory path, if one is set.
    pub closed spec fn spec_temp_directory_c(&self) -> Option<Vec<u8>> {
        self.temp_directory_c
    }

    /// The dial timeout.
    pub closed spec fn spec_dial_timeout(&self) -> Timestamp {
        self.dial_timeout
    }

    /// The temporary directory path, if one was given.
    pub closed spec fn spec_temp_dir(&self) -> Option<String> {
        self.temp_dir
    }

    /// Whether every operation runs entirely in memory.
    pub closed spec fn spec_in_memory(&self) -> bool {
        self.in_memory
    }

    /// Creates a configuration with the specific user agent and dial
    /// timeout. All the operations performed with this configuration will
    /// operate entirely in memory.
    pub fn new(user_agent: &str, dial_timeout: Timestamp) -> (res: Result<Self, Error>)
        requires
            dial_timeout.spec_secs() * 1000 + dial_timeout.spec_nanos() / 1_000_000 <= i32::MAX,
        ensures
            match res {
                Ok(c) => {
                    &&& !has_nul(user_agent.spec_bytes())
                    &&& c.spec_user_agent() == user_agent@
                    &&& c.spec_user_agent_c() == user_agent.spec_bytes().push(0u8)
                    &&& c.spec_dial_timeout() == dial_timeout
                    &&& c.spec_dial_timeout_milliseconds() == dial_timeout.spec_secs() * 1000
                        + dial_timeout.spec_nanos() / 1_000_000
                    &&& c.spec_temp_directory_c() is None
                    &&& c.spec_temp_dir() is None
                    &&& c.spec_in_memory()
                },
                Err(e) => {
                    &&& has_nul(user_agent.spec_bytes())
                    &&& is_invalid_args(
                        e,
                        "user_agent"@,
                        nul_msg_at(first_nul(user_agent.spec_bytes()) as nat),
                    )
                },
            },
    {
        let uagent = match marshal("user_agent", user_agent) {
            Ok(buf) => buf,
            Err(e) => {
                return Err(e);
            },
        };
        let millis: u128 = dial_timeout.as_millis();

        Ok(Config {
            user_agent_c: uagent,
            dial_timeout_milliseconds: millis as i32,
            temp_directory_c: None,
            user_agent: user_agent.to_owned(),
            dial_timeout: dial_timeout,
            temp_dir: None,
            in_memory: true,
        })
    }

    /// Creates a configuration with the specific user agent, dial timeout
    /// and a specific directory path for creating temporary files; with
    /// `None` a directory path chosen by the backend is used. Operations
    /// performed with this configuration may off-load data from memory to
    /// disk.
    pub fn new_use_disk(
        user_agent: &str,
        dial_timeout: Timestamp,
        temp_dir: Option<&str>,
    ) -> (res: Result<Self, Error>)
        requires
            dial_timeout.spec_secs() * 1000 + dial_timeout.spec_nanos() / 1_000_000 <= i32::MAX,
        ensures
            match res {
                Ok(c) => {
                    &&& !has_nul(user_agent.spec_bytes())
                    &&& !has_nul(temp_dir_arg_bytes(temp_dir))
                    &&& c.spec_user_agent() == user_agent@
                    &&& c.spec_user_agent_c() == user_agent.spec_bytes().push(0u8)
                    &&& c.spec_dial_timeout() == dial_timeout
                    &&& c.spec_dial_timeout_milliseconds() == dial_timeout.spec_secs() * 1000
                        + dial_timeout.spec_nanos() / 1_000_000
                    &&& c.spec_temp_directory_c() matches Some(b)
                        && b@ == temp_dir_arg_bytes(temp_dir).push(0u8)
                    &&& match temp_dir {
                        Some(t) => c.spec_temp_dir() matches Some(s) && s@ == t@,
                        None => c.spec_temp_dir() is None,
                    }
                    &&& !c.spec_in_memory()
                },
                Err(e) => {
                    if has_nul(user_agent.spec_bytes()) {
                        is_invalid_args(
                            e,
                            "user_agent"@,
                            nul_msg_at(first_nul(user_agent.spec_bytes()) as nat),
                        )
                    } else {
                        &&& has_nul(temp_dir_arg_bytes(temp_dir))
                        &&& is_invalid_args(
                            e,
                            "temp_dir"@,
                            nul_msg_at(first_nul(temp_dir_arg_bytes(temp_dir)) as nat),
                        )
                    }
                },
            },
    {
        let uagent = match marshal("user_agent", user_agent) {
            Ok(buf) => buf,
            Err(e) => {
                return Err(e);
            },
        };

        let tdir_arg: &str = match temp_dir {
            Some(t) => t,
            None => "",
        };
        proof {
            reveal_strlit("");
            if temp_dir is None {
                assert(tdir_arg.spec_bytes() =~= temp_dir_arg_bytes(temp_dir));
            }
        }
        let tdir = match marshal("temp_dir", tdir_arg) {
            Ok(buf) => buf,
            Err(e) => {
                return Err(e);
            },
        };
        let millis: u128 = dial_timeout.as_millis();

        let owned_temp_dir: Option<String> = match temp_dir {
            Some(t) => Some(t.to_owned()),
            None => None,
        };

        Ok(Config {
            user_agent_c: uagent,
            dial_timeout_milliseconds: millis as i32,
            temp_directory_c: Some(tdir),
            user_agent: user_agent.to_owned(),
            dial_timeout: dial_timeout,
            temp_dir: owned_temp_dir,
            in_memory: false,
        })
    }

    /// Returns the user agent.
    pub fn user_agent(&self) -> (res: &str)
        ensures
            res@ == self.spec_user_agent(),
    {
        self.user_agent.as_str()
    }

    /// Returns the marshalled bytes of the user agent, as they are handed
    /// to the foreign boundary.
    pub fn user_agent_c(&self) -> (res: &Vec<u8>)
        ensures
            res@ == self.spec_user_agent_c(),
    {
        &self.user_agent_c
    }

    /// Returns the dial timeout.
    pub fn dial_timeout(&self) -> (res: Timestamp)
        ensures
            res == self.spec_dial_timeout(),
    {
        self.dial_timeout
    }

    /// Returns the dial timeout in milliseconds, as it is handed to the
    /// foreign boundary.
    pub fn dial_timeout_milliseconds(&self) -> (res: i32)
        ensures
            res == self.spec_dial_timeout_milliseconds(),
    {
        self.dial_timeout_milliseconds
    }

    /// Returns the marshalled bytes of the temporary directory path, or
    /// `None` when running only in memory.
    pub fn temp_directory_c(&self) -> (res: &Option<Vec<u8>>)
        ensures
            res == self.spec_temp_directory_c(),
    {
        &self.temp_directory_c
    }

    /// Returns the temporary directory path, if one was given.
    pub fn temp_dir(&self) -> (res: &Option<String>)
        ensures
            res == self.spec_temp_dir(),
    {
        &self.temp_dir
    }

    /// Reports whether every operation runs entirely in memory.
    pub fn in_memory(&self) -> (res: bool)
        ensures
            res == self.spec_in_memory(),
    {
        self.in_memory
    }
}

} // verus!
