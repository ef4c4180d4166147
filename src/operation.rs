use vstd::prelude::*;
use vstd::string::StrSliceExecFns;

verus! {

/// The logical operations the gateway offers, each bound to one backend call
/// (a lookup then a listing for block transactions).
#[derive(PartialEq, Eq, Structural, Clone, Copy, Debug)]
pub enum Operation {
    MasterchainInfo,
    LookupBlock,
    Shards,
    BlockHeader,
    BlockTransactions,
    AddressInformation,
    ExtendedAddressInformation,
    Transactions,
    SendBoc,
}

impl Operation {
    /// The operation's method name in the JSON-RPC table.
    pub open spec fn spec_method_name(self) -> Seq<char> {
        match self {
            Operation::MasterchainInfo => "getMasterchainInfo"@,
            Operation::LookupBlock => "lookupBlock"@,
            Operation::Shards => "shards"@,
            Operation::BlockHeader => "getBlockHeader"@,
            Operation::BlockTransactions => "getBlockTransactions"@,
            Operation::AddressInformation => "getAddressInformation"@,
            Operation::ExtendedAddressInformation => "getExtendedAddressInformation"@,
            Operation::Transactions => "getTransactions"@,
            Operation::SendBoc => "sendBoc"@,
        }
    }

    pub fn method_name(&self) -> (r: &'static str)
        ensures
            r@ == self.spec_method_name(),
    {
        match self {
            Operation::MasterchainInfo => "getMasterchainInfo",
            Operation::LookupBlock => "lookupBlock",
            Operation::Shards => "shards",
            Operation::BlockHeader => "getBlockHeader",
            Operation::BlockTransactions => "getBlockTransactions",
            Operation::AddressInformation => "getAddressInformation",
            Operation::ExtendedAddressInformation => "getExtendedAddressInformation",
            Operation::Transactions => "getTransactions",
            Operation::SendBoc => "sendBoc",
        }
    }

    /// The operation a JSON-RPC method name dispatches to, if any.
    pub fn from_method(name: &str) -> (r: Option<Operation>)
        ensures
            r matches Some(op) ==> op.spec_method_name() == name@,
            r is None ==> forall|op: Operation| op.spec_method_name() != name@,
    {
        let ops = [
            Operation::MasterchainInfo,
            Operation::LookupBlock,
            Operation::Shards,
            Operation::BlockHeader,
            Operation::BlockTransactions,
            Operation::AddressInformation,
            Operation::ExtendedAddressInformation,
            Operation::Transactions,
            Operation::SendBoc,
        ];
        let mut i: usize = 0;
        while i < 9
            invariant
                0 <= i <= 9,
                ops@ == seq![
                    Operation::MasterchainInfo,
                    Operation::LookupBlock,
                    Operation::Shards,
                    Operation::BlockHeader,
                    Operation::BlockTransactions,
                    Operation::AddressInformation,
                    Operation::ExtendedAddressInformation,
                    Operation::Transactions,
                    Operation::SendBoc,
                ],
                forall|k: int| 0 <= k < i ==> (#[trigger] ops@[k]).spec_method_name() != name@,
            decreases 9 - i,
        {
            let op = ops[i];
            if same_text(op.method_name(), name) {
                return Some(op);
            }
            i = i + 1;
        }
        proof {
            assert forall|op: Operation| op.spec_method_name() != name@ by {
                match op {
                    Operation::MasterchainInfo => assert(ops@[0] == op),
                    Operation::LookupBlock => assert(ops@[1] == op),
                    Operation::Shards => assert(ops@[2] == op),
                    Operation::BlockHeader => assert(ops@[3] == op),
                    Operation::BlockTransactions => assert(ops@[4] == op),
                    Operation::AddressInformation => assert(ops@[5] == op),
                    Operation::ExtendedAddressInformation => assert(ops@[6] == op),
                    Operation::Transactions => assert(ops@[7] == op),
                    Operation::SendBoc => assert(ops@[8] == op),
                }
            }
        }
        None
    }
}

/// Whether two strings hold the same characters.
pub fn same_text(a: &str, b: &str) -> (r: bool)
    ensures
        r == (a@ == b@),
{
    let n = a.unicode_len();
    if n != b.unicode_len() {
        return false;
    }
    let mut i: usize = 0;
    while i < n
        invariant
            n == a@.len(),
            n == b@.len(),
            0 <= i <= n,
            a@.subrange(0, i as int) == b@.subrange(0, i as int),
        decreases n - i,
    {
        if a.get_char(i) != b.get_char(i) {
            return false;
        }
        assert(a@.subrange(0, i + 1) == a@.subrange(0, i as int).push(a@[i as int]));
        assert(b@.subrange(0, i + 1) == b@.subrange(0, i as int).push(b@[i as int]));
        i = i + 1;
    }
    assert(a@.subrange(0, n as int) == a@);
    assert(b@.subrange(0, n as int) == b@);
    true
}

} // verus!
