//! The configuration file as this pipeline treats it: an opaque text that is
//! only ever appended to, never parsed and never truncated.

use vstd::prelude::*;

verus! {

/// The content of a configuration file after a block is appended to it:
/// the old content stays as a prefix, the block follows it verbatim.
pub open spec fn appended(content: Seq<u8>, block: Seq<u8>) -> Seq<u8> {
    content + block
}

/// Appends a block to configuration content, the exact transformation the
/// append stage performs on the file (the driver opens the file in append
/// mode, so the file evolves by this function).
pub fn append_block(content: &mut Vec<u8>, block: &[u8])
    ensures
        final(content)@ == appended(old(content)@, block@),
{
    let mut i: usize = 0;
    while i < block.len()
        invariant
            i <= block@.len(),
            content@ == old(content)@ + block@.subrange(0, i as int),
        decreases block@.len() - i,
    {
        content.push(block[i]);
        proof {
            assert(content@ =~= old(content)@ + block@.subrange(0, i + 1));
        }
        i += 1;
    }
    proof {
        assert(content@ =~= old(content)@ + block@);
    }
}

/// Appending never truncates: after appending two blocks in turn, the file
/// holds the original content and then both blocks, concatenated in order,
/// each readable unchanged at its offset.
pub proof fn lemma_append_never_truncates(content: Seq<u8>, first: Seq<u8>, second: Seq<u8>)
    ensures
        appended(appended(content, first), second) == content + first + second,
        appended(appended(content, first), second).subrange(0, content.len() as int) == content,
        appended(appended(content, first), second).subrange(
            content.len() as int,
            (content.len() + first.len()) as int,
        ) == first,
        appended(appended(content, first), second).subrange(
            (content.len() + first.len()) as int,
            (content.len() + first.len() + second.len()) as int,
        ) == second,
{
    let whole = appended(appended(content, first), second);
    assert(whole =~= content + first + second);
    assert(whole.subrange(0, content.len() as int) =~= content);
    assert(whole.subrange(content.len() as int, (content.len() + first.len()) as int) =~= first);
    assert(whole.subrange(
        (content.len() + first.len()) as int,
        (content.len() + first.len() + second.len()) as int,
    ) =~= second);
}

} // verus!
