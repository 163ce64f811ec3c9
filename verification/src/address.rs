use vstd::prelude::*;

verus! {

/// The address of a contract: its workchain and its account identifier.
#[derive(Clone, Debug, PartialEq, Eq)]
pub struct MessageAddress {
    pub workchain_id: i32,
    pub account: Vec<u8>,
}

impl View for MessageAddress {
    type V = (int, Seq<u8>);

    open spec fn view(&self) -> (int, Seq<u8>) {
        (self.workchain_id as int, self.account@)
    }
}

impl MessageAddress {
    /// Whether both addresses name the same account of the same workchain.
    pub fn same_as(&self, other: &MessageAddress) -> (res: bool)
        ensures
            res == (self@ == other@),
    {
        if self.workchain_id != other.workchain_id || self.account.len() != other.account.len() {
            return false;
        }
        let mut i: usize = 0;
        while i < self.account.len()
            invariant
                i <= self.account@.len(),
                self.account@.len() == other.account@.len(),
                forall|k: int| 0 <= k < i ==> self.account@[k] == other.account@[k],
            decreases self.account@.len() - i,
        {
            if self.account[i] != other.account[i] {
                return false;
            }
            i = i + 1;
        }
        assert(self.account@ =~= other.account@);
        true
    }
}

} // verus!
