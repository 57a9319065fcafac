use vstd::prelude::*;

use crate::error::MigError;
use crate::text::{spec_starts_with, starts_with};

verus! {

/// How the migration is run.
#[derive(PartialEq, Eq, Structural, Clone, Copy, Debug)]
pub enum MigMode {
    Agent,
    Immediate,
    Pretend,
}

/// Settings meant for debugging a migration.
#[derive(Clone, Debug)]
pub struct DebugConfig {
    /// Flash on this device instead of the root device.
    pub force_flash_device: Option<String>,
    /// Pretend mode: stop after unmounting the former root.
    pub no_flash: Option<bool>,
    /// Free-form debug parameters, such as `dump-efi` or `name:value`.
    pub hacks: Option<Vec<String>>,
}

/// The hack `h` is the parameter `param`, bare or with a value after a colon.
pub open spec fn hack_matches(h: Seq<char>, param: Seq<char>) -> bool {
    h == param || spec_starts_with(h, param + seq![':'])
}

/// No hack before position `n` names `param`.
pub open spec fn none_before(hacks: Seq<String>, param: Seq<char>, n: int) -> bool {
    forall|j: int| 0 <= j < n ==> !hack_matches(#[trigger] hacks[j]@, param)
}

/// The hack at position `i` is the first that names `param`.
pub open spec fn first_hack(hacks: Seq<String>, param: Seq<char>, i: int) -> bool {
    0 <= i < hacks.len() && hack_matches(hacks[i]@, param) && none_before(hacks, param, i)
}

impl DebugConfig {
    pub fn default() -> (r: DebugConfig)
        ensures
            r.force_flash_device is None,
            r.no_flash is None,
            r.hacks is None,
    {
        DebugConfig { force_flash_device: None, no_flash: None, hacks: None }
    }

    pub fn is_no_flash(&self) -> (r: bool)
        ensures
            r == (self.no_flash == Some(true)),
    {
        match self.no_flash {
            Some(val) => val,
            None => false,
        }
    }

    pub fn get_hacks(&self) -> (r: Option<&Vec<String>>)
        ensures
            match self.hacks {
                Some(h) => r == Some(&h),
                None => r is None,
            },
    {
        match &self.hacks {
            Some(val) => Some(val),
            None => None,
        }
    }

    /// The first hack that names `param`, bare or as `param:value`.
    pub fn get_hack(&self, param: &str) -> (r: Option<&String>)
        ensures
            match self.hacks {
                None => r is None,
                Some(hacks) => match r {
                    Some(h) => exists|i: int| first_hack(hacks@, param@, i) && hacks@[i] == *h,
                    None => none_before(hacks@, param@, hacks@.len() as int),
                },
            },
    {
        let hacks = match &self.hacks {
            Some(hacks) => hacks,
            None => {
                return None;
            },
        };
        let mut prefix = String::from_str(param);
        proof {
            reveal_strlit(":");
        }
        prefix.append(":");
        let n = hacks.len();
        let mut i: usize = 0;
        while i < n
            invariant
                n == hacks@.len(),
                i <= n,
                self.hacks == Some(*hacks),
                prefix@ == param@ + seq![':'],
                none_before(hacks@, param@, i as int),
            decreases n - i,
        {
            let hack = &hacks[i];
            if hack.as_str().to_owned() == param.to_owned() || starts_with(hack.as_str(), prefix.as_str()) {
                assert(hack_matches(hacks@[i as int]@, param@));
                assert(first_hack(hacks@, param@, i as int) && hacks@[i as int] == *hack);
                assert(self.hacks is Some);
                assert(self.hacks->Some_0 == *hacks);
                return Some(hack);
            }
            i = i + 1;
        }
        None
    }

    /// Checks the debug settings against the migration mode; every setting
    /// is accepted in every mode.
    pub fn check(&self, _mig_mode: &MigMode) -> (r: Result<(), MigError>)
        ensures
            r is Ok,
    {
        Ok(())
    }
}

} // verus!
