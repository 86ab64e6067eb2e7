use vstd::prelude::*;

verus! {

/// The arguments of one client request.
#[derive(Debug, Clone)]
pub struct Arguments {
    pub key: String,
    pub value: String,
    pub address: String,
}

/// The arguments of a request to `address`, with no key and no value.
pub fn arguments_for_address(address: String) -> (r: Arguments)
    ensures
        r.key@ == Seq::<char>::empty(),
        r.value@ == Seq::<char>::empty(),
        r.address == address,
{
    Arguments { key: String::new(), value: String::new(), address }
}

} // verus!
