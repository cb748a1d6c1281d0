//! Model holder: a process-wide slot holding at most one loaded model.
//!
//! A loaded model is an opaque capability owned by the surrounding process;
//! here it is identified by a `ModelHandle`, a plain value carrying the
//! model's architecture and a generation number that is fresh for every load.
//! Loading replaces the resident handle by an update-then-swap discipline:
//! a handle already borrowed for inference is a value the borrower owns, so a
//! concurrent replacement can never invalidate it.

use vstd::prelude::*;

verus! {

use vstd::string::StrSliceExecFns;

use crate::ServerError;

/// The model architectures the loader recognizes, by identifier:
/// `bloom`, `gpt2`, `gptj`, `gptneox`, `llama`.
#[derive(Clone, Copy, PartialEq, Eq, Debug, Structural)]
pub enum Architecture {
    Bloom,
    Gpt2,
    GptJ,
    GptNeoX,
    Llama,
}

/// The architecture named by an identifier, or `None` if unrecognized.
pub open spec fn architecture_of(s: Seq<char>) -> Option<Architecture> {
    if s == "bloom"@ {
        Some(Architecture::Bloom)
    } else if s == "gpt2"@ {
        Some(Architecture::Gpt2)
    } else if s == "gptj"@ {
        Some(Architecture::GptJ)
    } else if s == "gptneox"@ {
        Some(Architecture::GptNeoX)
    } else if s == "llama"@ {
        Some(Architecture::Llama)
    } else {
        None
    }
}

/// Character-for-character string equality.
fn str_eq(a: &str, b: &str) -> (r: bool)
    ensures
        r == (a@ == b@),
{
    let alen = a.unicode_len();
    let blen = b.unicode_len();
    if alen != blen {
        return false;
    }
    let mut i: usize = 0;
    while i < alen
        invariant
            alen == a@.len(),
            blen == b@.len(),
            alen == blen,
            i <= alen,
            forall|j: int| 0 <= j < i ==> a@[j] == b@[j],
        decreases alen - i,
    {
        if a.get_char(i) != b.get_char(i) {
            return false;
        }
        i = i + 1;
    }
    proof {
        assert(a@ =~= b@);
    }
    true
}

/// Parse an architecture identifier; unrecognized identifiers are rejected
/// with `InvalidArchitecture`.
pub fn parse_architecture(s: &str) -> (r: Result<Architecture, ServerError>)
    ensures
        r matches Ok(a) ==> architecture_of(s@) == Some(a),
        r is Err <==> architecture_of(s@) is None,
        r is Err ==> r == Err::<Architecture, ServerError>(ServerError::InvalidArchitecture),
{
    if str_eq(s, "bloom") {
        Ok(Architecture::Bloom)
    } else if str_eq(s, "gpt2") {
        Ok(Architecture::Gpt2)
    } else if str_eq(s, "gptj") {
        Ok(Architecture::GptJ)
    } else if str_eq(s, "gptneox") {
        Ok(Architecture::GptNeoX)
    } else if str_eq(s, "llama") {
        Ok(Architecture::Llama)
    } else {
        Err(ServerError::InvalidArchitecture)
    }
}

/// Identifies one loaded model: its architecture and the generation number of
/// the load that produced it. A borrower holds this value by copy, so it is
/// unaffected by later loads.
#[derive(Clone, Copy, PartialEq, Eq, Debug, Structural)]
pub struct ModelHandle {
    pub architecture: Architecture,
    pub generation: u64,
}

/// The slot holding at most one resident model, plus the generation counter
/// that makes every load's handle fresh.
pub struct ModelHolder {
    resident: Option<ModelHandle>,
    next_generation: u64,
}

impl ModelHolder {
    /// The handle of the resident model, if one is loaded.
    pub closed spec fn resident(self) -> Option<ModelHandle> {
        self.resident
    }

    /// The generation number the next successful load will use.
    pub closed spec fn next_generation(self) -> u64 {
        self.next_generation
    }

    /// Holds of every handle a load of this holder has produced: its
    /// generation lies below the next one to be used.
    pub open spec fn issued(self, h: ModelHandle) -> bool {
        h.generation < self.next_generation()
    }

    /// Well-formedness: the resident handle, if any, was issued by this
    /// holder.
    pub open spec fn wf(self) -> bool {
        self.resident() matches Some(h) ==> self.issued(h)
    }

    /// What applying a load outcome does, as a transition: on success the
    /// resident handle is replaced by a fresh one; on failure the previous
    /// resident is left untouched.
    pub closed spec fn load_transition(self, architecture: Architecture, outcome: Result<
        (),
        String,
    >) -> (ModelHolder, Result<ModelHandle, ServerError>) {
        match outcome {
            Ok(_) => {
                let handle = ModelHandle { architecture, generation: self.next_generation };
                (
                    ModelHolder {
                        resident: Some(handle),
                        next_generation: (self.next_generation + 1) as u64,
                    },
                    Ok(handle),
                )
            },
            Err(reason) => (self, Err(ServerError::ModelLoadFailed(reason))),
        }
    }

    /// A fresh holder with no resident model.
    pub fn new() -> (m: Self)
        ensures
            m.wf(),
            m.resident() is None,
            m.next_generation() == 0,
    {
        ModelHolder { resident: None, next_generation: 0 }
    }

    /// Borrow the resident model for inference: fails fast with
    /// `NoModelLoaded` if none is resident; otherwise hands out a copy of the
    /// resident handle. Borrowers are unlimited and never block one another.
    pub fn borrow_for_inference(&self) -> (r: Result<ModelHandle, ServerError>)
        ensures
            self.resident() matches Some(h) ==> r == Ok::<ModelHandle, ServerError>(h),
            self.resident() is None ==> r == Err::<ModelHandle, ServerError>(
                ServerError::NoModelLoaded,
            ),
            r is Ok <==> self.resident() is Some,
    {
        match self.resident {
            Some(h) => Ok(h),
            None => Err(ServerError::NoModelLoaded),
        }
    }

    /// True when every generation number has been spent and no further load
    /// can be recorded.
    pub fn generations_exhausted(&self) -> (r: bool)
        ensures
            r == (self.next_generation() == u64::MAX),
    {
        self.next_generation == u64::MAX
    }

    /// Record the outcome of the external loader. On success, atomically
    /// replace the resident handle with a fresh one for `architecture`; on
    /// failure, leave the previous resident untouched and report
    /// `ModelLoadFailed` with the loader's reason.
    pub fn apply_load_outcome(&mut self, architecture: Architecture, outcome: Result<
        (),
        String,
    >) -> (r: Result<ModelHandle, ServerError>)
        requires
            old(self).next_generation() < u64::MAX,
        ensures
            (*final(self), r) == old(self).load_transition(architecture, outcome),
            old(self).wf() ==> final(self).wf(),
            outcome is Ok ==> (r matches Ok(h) && final(self).resident() == Some(h)
                && h.architecture == architecture && h.generation == old(self).next_generation()
                && final(self).next_generation() == old(self).next_generation() + 1),
            outcome matches Err(reason) ==> *final(self) == *old(self) && r == Err::<
                ModelHandle,
                ServerError,
            >(ServerError::ModelLoadFailed(reason)),
            forall|h: ModelHandle| old(self).issued(h) ==> final(self).issued(h),
    {
        match outcome {
            Ok(_) => {
                let handle = ModelHandle { architecture, generation: self.next_generation };
                self.resident = Some(handle);
                self.next_generation = self.next_generation + 1;
                Ok(handle)
            },
            Err(reason) => Err(ServerError::ModelLoadFailed(reason)),
        }
    }
}

/// Replacing the resident model does not invalidate a handle borrowed before
/// the replacement: the borrowed handle stays issued and untouched, while the
/// new resident carries a strictly fresher generation — so a generation task
/// that borrowed before the load keeps observing exactly the model it
/// borrowed, and never the replacement.
pub proof fn lemma_replace_preserves_borrowed_handle(
    m: ModelHolder,
    h: ModelHandle,
    architecture: Architecture,
)
    requires
        m.wf(),
        m.resident() == Some(h),
        m.next_generation() < u64::MAX,
    ensures
        m.load_transition(architecture, Ok(())).0.issued(h),
        m.load_transition(architecture, Ok(())).0.wf(),
        m.load_transition(architecture, Ok(())).0.resident() matches Some(h2) && h2.generation
            > h.generation,
{
}

} // verus!
