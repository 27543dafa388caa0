//! The `data` blob that binds a protected call into its Trustline intent.
use vstd::prelude::*;
use vstd::string::StringSliceAdditionalSpecFns;

verus! {

/// Intent `data` for a call: the function name's bytes followed by the argument bytes.
pub open spec fn call_data(name: Seq<u8>, args: Seq<u8>) -> Seq<u8> {
    name + args
}

/// Appends every byte of `src` to `out`.
fn append_bytes(out: &mut Vec<u8>, src: &[u8])
    ensures
        final(out)@ == old(out)@ + src@,
{
    let mut i: usize = 0;
    while i < src.len()
        invariant
            0 <= i <= src@.len(),
            out@ == old(out)@ + src@.subrange(0, i as int),
        decreases src@.len() - i,
    {
        out.push(src[i]);
        i = i + 1;
        assert(src@.subrange(0, i as int) == src@.subrange(0, i - 1).push(src@[i - 1]));
    }
    assert(src@.subrange(0, src@.len() as int) == src@);
}

/// Build a stable `data` payload from a function name and argument bytes:
/// the UTF-8 bytes of `fn_name` followed by `args`.
pub fn encode_call_data(fn_name: &str, args: &[u8]) -> (data: Vec<u8>)
    ensures
        data@ == call_data(fn_name.spec_bytes(), args@),
        data@ == fn_name.spec_bytes() + args@,
{
    let mut out: Vec<u8> = Vec::new();
    append_bytes(&mut out, fn_name.as_bytes());
    append_bytes(&mut out, args);
    out
}

/// Call data is the name's bytes, unchanged, followed by the argument bytes,
/// unchanged, and nothing else.
pub proof fn lemma_call_data_layout(name: Seq<u8>, args: Seq<u8>)
    ensures
        call_data(name, args).len() == name.len() + args.len(),
        call_data(name, args).subrange(0, name.len() as int) == name,
        call_data(name, args).subrange(name.len() as int, call_data(name, args).len() as int) == args,
{
    assert(call_data(name, args).subrange(0, name.len() as int) =~= name);
    assert(call_data(name, args).subrange(name.len() as int, call_data(name, args).len() as int) =~= args);
}

/// With the same function name, two calls get the same `data` exactly when
/// their argument bytes are the same.
pub proof fn lemma_call_data_separates_args(name: Seq<u8>, args1: Seq<u8>, args2: Seq<u8>)
    ensures
        call_data(name, args1) == call_data(name, args2) <==> args1 == args2,
{
    if call_data(name, args1) == call_data(name, args2) {
        assert(args1 =~= call_data(name, args1).subrange(name.len() as int, call_data(name, args1).len() as int));
        assert(args2 =~= call_data(name, args2).subrange(name.len() as int, call_data(name, args2).len() as int));
    }
}

/// With the same argument bytes, two calls get the same `data` exactly when
/// their function names are the same.
pub proof fn lemma_call_data_separates_names(name1: Seq<u8>, name2: Seq<u8>, args: Seq<u8>)
    ensures
        call_data(name1, args) == call_data(name2, args) <==> name1 == name2,
{
    if call_data(name1, args) == call_data(name2, args) {
        assert(call_data(name1, args).len() == call_data(name2, args).len());
        assert(name1.len() == name2.len());
        assert(name1 =~= call_data(name1, args).subrange(0, name1.len() as int));
        assert(name2 =~= call_data(name2, args).subrange(0, name2.len() as int));
    }
}

} // verus!
