//! Reading an uploaded part within a size limit.
use vstd::prelude::*;
use crate::routes::v3::project_creation::CreateError;

verus! {

broadcast use vstd::string::group_string_axioms;

/// How much room is set aside at first when a part is read (32 KiB).
pub const INITIAL_ALLOC_BYTES: usize = 32768;

/// The room set aside before reading a part: the declared length when it is
/// smaller than 32 KiB, else 32 KiB; a part that declares more than `cap`
/// bytes is refused. `content_length` is `None` without the header and
/// `Some(None)` when it is no number.
pub fn initial_capacity(content_length: Option<Option<u64>>, cap: usize, err_msg: &str) -> (r: Result<usize, CreateError>)
    ensures
        match content_length {
            Some(Some(len)) => if len as usize > cap {
                r matches Err(CreateError::InvalidInput(m)) && m@ == err_msg@
            } else {
                r == Ok::<usize, CreateError>(if (len as usize) < INITIAL_ALLOC_BYTES { len as usize } else { INITIAL_ALLOC_BYTES })
            },
            _ => r == Ok::<usize, CreateError>(INITIAL_ALLOC_BYTES),
        },
{
    match content_length {
        Some(Some(len)) => {
            let l = #[verifier::truncate] (len as usize);
            if l > cap {
                Err(CreateError::InvalidInput(err_msg.to_owned()))
            } else if l < INITIAL_ALLOC_BYTES {
                Ok(l)
            } else {
                Ok(INITIAL_ALLOC_BYTES)
            }
        },
        _ => Ok(INITIAL_ALLOC_BYTES),
    }
}

/// The bytes of the chunks read so far, or the refusal once a chunk comes
/// after `cap` bytes were already read (the last chunk read may pass `cap`).
pub open spec fn spec_collect(chunks: Seq<Seq<u8>>, cap: nat) -> Option<Seq<u8>>
    decreases chunks.len(),
{
    if chunks.len() == 0 {
        Some(Seq::empty())
    } else {
        match spec_collect(chunks.drop_last(), cap) {
            None => None,
            Some(b) => if b.len() >= cap { None } else { Some(b + chunks.last()) },
        }
    }
}

/// The bytes of a part read chunk by chunk within the limit.
pub fn collect_chunks(chunks: &Vec<Vec<u8>>, cap: usize, err_msg: &str) -> (r: Result<Vec<u8>, CreateError>)
    ensures
        match spec_collect(chunks.deep_view(), cap as nat) {
            Some(b) => r matches Ok(v) && v@ == b,
            None => r matches Err(CreateError::InvalidInput(m)) && m@ == err_msg@,
        },
{
    let mut bytes: Vec<u8> = Vec::new();
    let mut i: usize = 0;
    while i < chunks.len()
        invariant
            i <= chunks@.len(),
            spec_collect(chunks.deep_view().take(i as int), cap as nat) == Some(bytes@),
        decreases chunks@.len() - i,
    {
        assert(chunks.deep_view().take(i + 1).drop_last() == chunks.deep_view().take(i as int));
        if bytes.len() >= cap {
            proof {
                lemma_collect_refusal_persists(chunks.deep_view(), cap as nat, i + 1, chunks@.len() as int);
                assert(chunks.deep_view().take(chunks@.len() as int) == chunks.deep_view());
            }
            return Err(CreateError::InvalidInput(err_msg.to_owned()));
        }
        let mut k: usize = 0;
        let ghost start = bytes@;
        while k < chunks[i].len()
            invariant
                i < chunks@.len(),
                k <= chunks@[i as int]@.len(),
                bytes@ == start + chunks@[i as int]@.subrange(0, k as int),
            decreases chunks@[i as int]@.len() - k,
        {
            bytes.push(chunks[i][k]);
            assert(chunks@[i as int]@.subrange(0, k + 1) == chunks@[i as int]@.subrange(0, k as int).push(chunks@[i as int]@[k as int]));
            k = k + 1;
        }
        assert(chunks@[i as int]@.subrange(0, chunks@[i as int]@.len() as int) == chunks@[i as int]@);
        assert(chunks.deep_view()[i as int] == chunks@[i as int]@);
        i = i + 1;
    }
    assert(chunks.deep_view().take(chunks@.len() as int) == chunks.deep_view());
    Ok(bytes)
}

proof fn lemma_collect_refusal_persists(chunks: Seq<Seq<u8>>, cap: nat, k: int, j: int)
    requires
        0 <= k <= j <= chunks.len(),
        spec_collect(chunks.take(k), cap) is None,
    ensures
        spec_collect(chunks.take(j), cap) is None,
    decreases j - k,
{
    if j > k {
        lemma_collect_refusal_persists(chunks, cap, k, j - 1);
        assert(chunks.take(j).drop_last() == chunks.take(j - 1));
    }
}

} // verus!
