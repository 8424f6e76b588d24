//! Deriving the crawl resource's target path from the upload location:
//! the storage key's directory prefix, reused verbatim under the bucket.

use vstd::prelude::*;

verus! {

/// Position of the last occurrence of `c` in `s`, or -1 if `c` never
/// occurs.
pub open spec fn last_index_of(s: Seq<char>, c: char) -> int
    decreases s.len(),
{
    if s.len() == 0 {
        -1
    } else if s.last() == c {
        s.len() - 1
    } else {
        last_index_of(s.drop_last(), c)
    }
}

proof fn lemma_last_index_push(t: Seq<char>, x: char, c: char)
    ensures
        last_index_of(t.push(x), c) == if x == c {
            t.len() as int
        } else {
            last_index_of(t, c)
        },
{
    assert(t.push(x).drop_last() =~= t);
    assert(t.push(x).last() == x);
}

/// The directory part of a '/'-separated storage key: everything before
/// the last separator, or empty when there is none — what joining all
/// but the last part back together yields.
pub open spec fn key_dir_spec(k: Seq<char>) -> Seq<char> {
    if last_index_of(k, '/') < 0 {
        Seq::<char>::empty()
    } else {
        k.subrange(0, last_index_of(k, '/'))
    }
}

/// The storage path the crawl resource is pointed at: the bucket plus
/// the key's directory prefix, under the object-store scheme.
pub open spec fn target_path_spec(bucket: Seq<char>, key: Seq<char>) -> Seq<char> {
    "s3://"@ + bucket + "/"@ + key_dir_spec(key)
}

/// Builds the crawl target path for an upload addressed by bucket and
/// key.
#[verifier::loop_isolation(false)]
pub fn target_path_for(bucket: &str, key: &str) -> (r: String)
    ensures
        r@ == target_path_spec(bucket@, key@),
{
    let len = key.unicode_len();
    let mut slash: Option<usize> = None;
    let mut i: usize = 0;
    while i < len
        invariant
            0 <= i <= len,
            ({
                let pre = key@.subrange(0, i as int);
                match slash {
                    None => last_index_of(pre, '/') == -1,
                    Some(j) => j < i && last_index_of(pre, '/') == j as int,
                }
            }),
        decreases len - i,
    {
        let ghost pre = key@.subrange(0, i as int);
        proof {
            assert(key@.subrange(0, i + 1) =~= pre.push(key@[i as int]));
            lemma_last_index_push(pre, key@[i as int], '/');
        }
        if key.get_char(i) == '/' {
            slash = Some(i);
        }
        i += 1;
    }
    proof {
        assert(key@.subrange(0, len as int) =~= key@);
    }
    let dir = match slash {
        Some(j) => key.substring_char(0, j),
        None => key.substring_char(0, 0),
    };
    assert(dir@ =~= key_dir_spec(key@));
    let mut out = String::from_str("s3://");
    out.append(bucket);
    out.append("/");
    out.append(dir);
    assert(out@ =~= target_path_spec(bucket@, key@));
    out
}

} // verus!
