//! The synchronisation primitive the compatibility layer is asked to use.

use crate::env_vars::EnvVars;
use vstd::prelude::*;
use vstd::string::StringExecFns;

verus! {

/// The synchronisation modes, each one building on the one before it.
#[derive(Clone, Copy, Debug, PartialEq, Eq, Structural)]
pub enum WineSync {
    Off,
    ESync,
    FSync,
    Futex2,
}

/// The mode a stored name stands for. A name that is not one of the four
/// known ones stands for no synchronisation at all.
pub open spec fn sync_from_name(name: Seq<char>) -> WineSync {
    if name == "esync"@ {
        WineSync::ESync
    } else if name == "fsync"@ {
        WineSync::FSync
    } else if name == "futex2"@ {
        WineSync::Futex2
    } else {
        WineSync::Off
    }
}

/// The name under which a mode is stored.
pub open spec fn sync_name(sync: WineSync) -> Seq<char> {
    match sync {
        WineSync::Off => "none"@,
        WineSync::ESync => "esync"@,
        WineSync::FSync => "fsync"@,
        WineSync::Futex2 => "futex2"@,
    }
}

/// The variables that switch a mode on.
pub open spec fn sync_env(sync: WineSync) -> Map<Seq<char>, Seq<char>> {
    let esync = Map::<Seq<char>, Seq<char>>::empty().insert("ESYNC"@, "1"@);
    let fsync = esync.insert("FSYNC"@, "1"@);
    match sync {
        WineSync::Off => Map::empty(),
        WineSync::ESync => esync,
        WineSync::FSync => fsync,
        WineSync::Futex2 => fsync.insert("FSYNC_FUTEX2"@, "1"@),
    }
}

/// The position of a mode on the ladder.
pub open spec fn sync_rank(sync: WineSync) -> nat {
    match sync {
        WineSync::Off => 0,
        WineSync::ESync => 1,
        WineSync::FSync => 2,
        WineSync::Futex2 => 3,
    }
}

impl WineSync {
    /// Reads a stored mode name; an unrecognised name disables
    /// synchronisation rather than failing.
    pub fn from_name(name: &str) -> (sync: WineSync)
        ensures
            sync == sync_from_name(name@),
    {
        let name = String::from_str(name);
        if name == String::from_str("esync") {
            WineSync::ESync
        } else if name == String::from_str("fsync") {
            WineSync::FSync
        } else if name == String::from_str("futex2") {
            WineSync::Futex2
        } else {
            WineSync::Off
        }
    }

    /// The name under which this mode is stored.
    pub fn name(&self) -> (name: String)
        ensures
            name@ == sync_name(*self),
    {
        match self {
            WineSync::Off => String::from_str("none"),
            WineSync::ESync => String::from_str("esync"),
            WineSync::FSync => String::from_str("fsync"),
            WineSync::Futex2 => String::from_str("futex2"),
        }
    }

    /// The environment variables that switch this mode on.
    pub fn get_env_vars(&self) -> (vars: EnvVars)
        ensures
            vars@ == sync_env(*self),
    {
        let mut vars = EnvVars::new();
        match self {
            WineSync::Off => {},
            WineSync::ESync => {
                vars.insert(String::from_str("ESYNC"), String::from_str("1"));
            },
            WineSync::FSync => {
                vars.insert(String::from_str("ESYNC"), String::from_str("1"));
                vars.insert(String::from_str("FSYNC"), String::from_str("1"));
            },
            WineSync::Futex2 => {
                vars.insert(String::from_str("ESYNC"), String::from_str("1"));
                vars.insert(String::from_str("FSYNC"), String::from_str("1"));
                vars.insert(String::from_str("FSYNC_FUTEX2"), String::from_str("1"));
            },
        }
        vars
    }
}

impl Default for WineSync {
    fn default() -> (sync: WineSync)
        ensures
            sync == WineSync::ESync,
    {
        WineSync::ESync
    }
}

/// Reading back a stored name gives the mode that was stored.
pub proof fn lemma_sync_name_round_trip(sync: WineSync)
    ensures
        sync_from_name(sync_name(sync)) == sync,
{
    reveal_strlit("none");
    reveal_strlit("esync");
    reveal_strlit("fsync");
    reveal_strlit("futex2");
    assert("esync"@[0] == 'e' && "fsync"@[0] == 'f');
    assert("fsync"@[1] == 's' && "futex2"@[1] == 'u');
}

/// The ladder: a mode's variables are among those of every mode above it,
/// with the same values, and each step up adds exactly one variable.
pub proof fn lemma_sync_env_monotone(lower: WineSync, upper: WineSync)
    requires
        sync_rank(lower) <= sync_rank(upper),
    ensures
        sync_env(lower).submap_of(sync_env(upper)),
        sync_env(lower).dom().finite(),
        sync_env(lower).dom().len() == sync_rank(lower),
{
    reveal_strlit("ESYNC");
    reveal_strlit("FSYNC");
    reveal_strlit("FSYNC_FUTEX2");
    assert("ESYNC"@[0] == 'E' && "FSYNC"@[0] == 'F' && "FSYNC_FUTEX2"@[0] == 'F');
    assert("FSYNC"@.len() == 5 && "FSYNC_FUTEX2"@.len() == 12);
}

} // verus!
