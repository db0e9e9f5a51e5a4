//! The library catalog source's typed record and the stage's two decisions:
//! the upstream consistency check (the advertised total must equal the number
//! of records actually returned) and the id-tagged operations for the bulk
//! write (a record without a code is dropped, the code of the rest becomes
//! its document id).
use vstd::prelude::*;

verus! {

/// One library record as the upstream API reports it. A record whose `code`
/// is absent cannot be indexed and is dropped before the write.
#[derive(Clone, Debug)]
pub struct Lib {
    pub code: Option<String>,
    pub name: String,
    pub address: String,
    pub tel: String,
    pub fax: Option<String>,
    pub latitude: String,
    pub longitude: String,
    pub homepage: Option<String>,
    pub closed: Option<String>,
    pub operating_time: Option<String>,
    pub book_count: String,
}

/// Why the libraries stage failed; fatal for the whole run.
#[derive(Clone, Copy, PartialEq, Eq, Structural, Debug)]
pub enum LibrariesError {
    /// The advertised total and the returned count disagree: upstream
    /// pagination cannot be trusted for this run.
    CountMismatch { num_found: i32, result_num: i32 },
}

/// The consistency gate of the libraries stage: the records pass through
/// exactly when the advertised total equals the returned count; any mismatch
/// aborts the stage.
pub fn check_library_response(num_found: i32, result_num: i32, libs: Vec<Lib>) -> (r: Result<
    Vec<Lib>,
    LibrariesError,
>)
    ensures
        num_found == result_num ==> (r matches Ok(out) && out == libs),
        num_found != result_num ==> r == Err::<Vec<Lib>, LibrariesError>(
            LibrariesError::CountMismatch { num_found, result_num },
        ),
{
    if num_found == result_num {
        Ok(libs)
    } else {
        Err(LibrariesError::CountMismatch { num_found, result_num })
    }
}

/// The id-tagged upsert operations for a sequence of library records, in
/// order: records without a code are dropped, and each remaining record is
/// paired with its code as the document id.
pub open spec fn spec_library_ops(libs: Seq<Lib>) -> Seq<(String, Lib)>
    decreases libs.len(),
{
    if libs.len() == 0 {
        Seq::empty()
    } else {
        let init = spec_library_ops(libs.drop_last());
        match libs.last().code {
            Some(code) => init.push((code, libs.last())),
            None => init,
        }
    }
}

/// Law: no emitted operation lacks a code, and every operation's id is the
/// code of its own record.
pub proof fn lemma_library_ops_ids(libs: Seq<Lib>)
    ensures
        forall|i: int| 0 <= i < spec_library_ops(libs).len() ==> {
            let op = #[trigger] spec_library_ops(libs)[i];
            op.1.code matches Some(code) && op.0 == code
        },
    decreases libs.len(),
{
    if libs.len() > 0 {
        lemma_library_ops_ids(libs.drop_last());
    }
}

/// Builds the bulk operations for the library partition: one id-tagged upsert
/// per record that carries a code, in the order received.
pub fn library_bulk_ops(libs: Vec<Lib>) -> (r: Vec<(String, Lib)>)
    ensures
        r@ == spec_library_ops(libs@),
{
    let ghost whole = libs@;
    let mut rest = libs;
    let mut out: Vec<(String, Lib)> = Vec::new();
    let ghost mut k: int = 0;
    while rest.len() > 0
        invariant
            0 <= k <= whole.len(),
            rest@ == whole.subrange(k, whole.len() as int),
            out@ == spec_library_ops(whole.subrange(0, k)),
        decreases rest@.len(),
    {
        let lib = rest.remove(0);
        proof {
            assert(lib == whole[k]);
            assert(rest@ =~= whole.subrange(k + 1, whole.len() as int));
            assert(whole.subrange(0, k + 1).drop_last() =~= whole.subrange(0, k));
            assert(whole.subrange(0, k + 1).last() == whole[k]);
        }
        match &lib.code {
            Some(c) => {
                let id = c.clone();
                out.push((id, lib));
            },
            None => {},
        }
        proof {
            k = k + 1;
        }
    }
    proof {
        assert(whole.subrange(0, k) =~= whole);
    }
    out
}

} // verus!
