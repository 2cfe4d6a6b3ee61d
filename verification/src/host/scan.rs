//! The nodes a discovery scan has heard from: one entry per UID, the
//! latest response winning, kept in UID order for printing.
use vstd::prelude::*;
use crate::commissioning::DiscoveryInfo;
use crate::types::{group_type_lemmas, NodeUid};

verus! {

broadcast use group_type_lemmas;

/// The UID bytes read as one big-endian number; their order is the byte-wise
/// order of UIDs.
pub open spec fn be_value(s: Seq<u8>) -> nat
    decreases s.len(),
{
    if s.len() == 0 {
        0
    } else {
        be_value(s.drop_last()) * 256 + s.last() as nat
    }
}

pub open spec fn uid_key(uid: NodeUid) -> nat {
    be_value(uid.spec_bytes())
}

pub open spec fn pow256(n: nat) -> nat
    decreases n,
{
    if n == 0 {
        1
    } else {
        pow256((n - 1) as nat) * 256
    }
}

proof fn lemma_be_value_bound(s: Seq<u8>)
    ensures
        be_value(s) < pow256(s.len()),
    decreases s.len(),
{
    if s.len() > 0 {
        lemma_be_value_bound(s.drop_last());
        let v = be_value(s.drop_last());
        let p = pow256(s.drop_last().len());
        assert(v * 256 + s.last() < p * 256) by (nonlinear_arith)
            requires
                v < p,
                s.last() < 256,
        ;
    }
}

/// Two byte strings of one length with the same number are the same.
proof fn lemma_be_value_injective(a: Seq<u8>, b: Seq<u8>)
    requires
        a.len() == b.len(),
        be_value(a) == be_value(b),
    ensures
        a == b,
    decreases a.len(),
{
    if a.len() > 0 {
        let x = be_value(a.drop_last()) as int;
        let y = be_value(b.drop_last()) as int;
        let la = a.last() as int;
        let lb = b.last() as int;
        vstd::arithmetic::div_mod::lemma_fundamental_div_mod_converse_mod(x * 256 + la, 256, x, la);
        vstd::arithmetic::div_mod::lemma_fundamental_div_mod_converse_mod(y * 256 + lb, 256, y, lb);
        vstd::arithmetic::div_mod::lemma_fundamental_div_mod_converse_div(x * 256 + la, 256, x, la);
        vstd::arithmetic::div_mod::lemma_fundamental_div_mod_converse_div(y * 256 + lb, 256, y, lb);
        lemma_be_value_injective(a.drop_last(), b.drop_last());
        assert(a =~= a.drop_last().push(a.last()));
        assert(b =~= b.drop_last().push(b.last()));
    }
}

/// UIDs with the same number are the same UID.
proof fn lemma_uid_key_injective(a: NodeUid, b: NodeUid)
    requires
        uid_key(a) == uid_key(b),
    ensures
        a == b,
{
    lemma_be_value_injective(a.spec_bytes(), b.spec_bytes());
    NodeUid::lemma_ext(a, b);
}

fn key_of(uid: NodeUid) -> (r: u128)
    ensures
        r == uid_key(uid),
{
    let bytes = uid.as_bytes();
    let mut acc: u128 = 0;
    let mut i: usize = 0;
    while i < 12
        invariant
            i <= 12,
            bytes@ == uid.spec_bytes(),
            bytes@.len() == 12,
            acc == be_value(bytes@.take(i as int)),
        decreases 12 - i,
    {
        proof {
            lemma_be_value_bound(bytes@.take(i as int));
            assert(pow256(i as nat) <= pow256(11)) by {
                lemma_pow256_monotone(i as nat, 11);
            }
            assert(pow256(11) == 0x100_0000_0000_0000_0000_0000nat) by {
                assert(pow256(0) == 1);
                assert(pow256(1) == 0x100);
                assert(pow256(2) == 0x1_0000);
                assert(pow256(3) == 0x100_0000);
                assert(pow256(4) == 0x1_0000_0000);
                assert(pow256(5) == 0x100_0000_0000);
                assert(pow256(6) == 0x1_0000_0000_0000);
                assert(pow256(7) == 0x100_0000_0000_0000);
                assert(pow256(8) == 0x1_0000_0000_0000_0000);
                assert(pow256(9) == 0x100_0000_0000_0000_0000);
                assert(pow256(10) == 0x1_0000_0000_0000_0000_0000nat);
            }
            assert(bytes@.take(i + 1).drop_last() =~= bytes@.take(i as int));
        }
        acc = acc * 256 + bytes[i] as u128;
        i = i + 1;
    }
    assert(bytes@.take(12) =~= bytes@);
    acc
}

proof fn lemma_pow256_monotone(a: nat, b: nat)
    requires
        a <= b,
    ensures
        pow256(a) <= pow256(b),
    decreases b,
{
    if a < b {
        lemma_pow256_monotone(a, (b - 1) as nat);
    }
}

/// Whether the entries' UIDs strictly increase.
pub open spec fn uid_ordered(s: Seq<DiscoveryInfo>) -> bool {
    forall|i: int, j: int| 0 <= i < j < s.len() ==> uid_key(s[i].uid) < uid_key(s[j].uid)
}

/// `s` after a response from `info.uid`: that UID's entry replaced, or a
/// new one placed in UID order.
pub open spec fn spec_record(s: Seq<DiscoveryInfo>, info: DiscoveryInfo) -> Seq<DiscoveryInfo>
    decreases s.len(),
{
    if s.len() == 0 {
        seq![info]
    } else if uid_key(s[0].uid) == uid_key(info.uid) {
        seq![info] + s.drop_first()
    } else if uid_key(info.uid) < uid_key(s[0].uid) {
        seq![info] + s
    } else {
        seq![s[0]] + spec_record(s.drop_first(), info)
    }
}

/// The responses of one scan, in UID order, one per UID.
pub struct ScanResults {
    infos: Vec<DiscoveryInfo>,
}

impl View for ScanResults {
    type V = Seq<DiscoveryInfo>;

    closed spec fn view(&self) -> Seq<DiscoveryInfo> {
        self.infos@
    }
}

proof fn lemma_record_prefix(s: Seq<DiscoveryInfo>, info: DiscoveryInfo, i: int)
    requires
        uid_ordered(s),
        0 <= i <= s.len(),
        forall|k: int| 0 <= k < i ==> uid_key(#[trigger] s[k].uid) < uid_key(info.uid),
        i < s.len() ==> uid_key(info.uid) <= uid_key(s[i].uid),
    ensures
        spec_record(s, info) == if i < s.len() && uid_key(s[i].uid) == uid_key(info.uid) {
            s.update(i, info)
        } else {
            s.insert(i, info)
        },
    decreases i,
{
    if i == 0 {
        if s.len() == 0 {
            assert(s.insert(0, info) =~= seq![info]);
        } else if uid_key(s[0].uid) == uid_key(info.uid) {
            assert(s.update(0, info) =~= seq![info] + s.drop_first());
        } else {
            assert(s.insert(0, info) =~= seq![info] + s);
        }
    } else {
        let t = s.drop_first();
        assert(uid_key(s[0].uid) < uid_key(info.uid));
        assert forall|k: int| 0 <= k < i - 1 implies uid_key(#[trigger] t[k].uid) < uid_key(info.uid) by {
            assert(t[k] == s[k + 1]);
        }
        lemma_record_prefix(t, info, i - 1);
        if i < s.len() && uid_key(s[i].uid) == uid_key(info.uid) {
            assert(seq![s[0]] + t.update(i - 1, info) =~= s.update(i, info));
        } else {
            assert(seq![s[0]] + t.insert(i - 1, info) =~= s.insert(i, info));
        }
    }
}

impl ScanResults {
    #[verifier::type_invariant]
    spec fn ordered(self) -> bool {
        uid_ordered(self.infos@)
    }

    pub fn new() -> (r: Self)
        ensures
            r@ == Seq::<DiscoveryInfo>::empty(),
    {
        ScanResults { infos: Vec::new() }
    }

    /// Records a discovery response.
    pub fn record(&mut self, info: DiscoveryInfo)
        ensures
            final(self)@ == spec_record(old(self)@, info),
            uid_ordered(final(self)@),
    {
        proof {
            use_type_invariant(&*self);
        }
        let key = key_of(info.uid);
        let mut i: usize = 0;
        while i < self.infos.len() && key_of(self.infos[i].uid) < key
            invariant
                i <= self.infos@.len(),
                uid_ordered(self.infos@),
                key == uid_key(info.uid),
                forall|k: int| 0 <= k < i ==> uid_key(#[trigger] self.infos@[k].uid) < uid_key(info.uid),
            decreases self.infos@.len() - i,
        {
            i = i + 1;
        }
        let ghost old_infos = self.infos@;
        proof {
            lemma_record_prefix(old_infos, info, i as int);
        }
        let mut infos = Vec::new();
        std::mem::swap(&mut infos, &mut self.infos);
        if i < infos.len() && key_of(infos[i].uid) == key {
            infos.set(i, info);
        } else {
            infos.insert(i, info);
        }
        proof {
            assert forall|a: int, b: int| 0 <= a < b < infos@.len() implies uid_key(infos@[a].uid)
                < uid_key(infos@[b].uid) by {
                if i < old_infos.len() && uid_key(old_infos[i as int].uid) == uid_key(info.uid) {
                } else {
                    if a < i && b > i {
                        assert(infos@[b] == old_infos[b - 1]);
                    }
                }
            }
        }
        self.infos = infos;
    }

    pub fn len(&self) -> (r: usize)
        ensures
            r == self@.len(),
    {
        self.infos.len()
    }

    pub fn is_empty(&self) -> (r: bool)
        ensures
            r == (self@.len() == 0),
    {
        self.infos.len() == 0
    }

    /// The responses in UID order.
    pub fn infos(&self) -> (r: &[DiscoveryInfo])
        ensures
            r@ == self@,
            uid_ordered(r@),
    {
        proof {
            use_type_invariant(self);
        }
        self.infos.as_slice()
    }
}

/// Recording a response keeps one entry per UID, holds the new response for
/// its UID, and keeps every entry of another UID.
#[verifier::spinoff_prover]
#[verifier::rlimit(40)]
pub proof fn lemma_record_keeps_one_entry_per_uid(s: Seq<DiscoveryInfo>, info: DiscoveryInfo)
    requires
        uid_ordered(s),
    ensures
        uid_ordered(spec_record(s, info)),
        spec_record(s, info).contains(info),
        forall|k: int| 0 <= k < s.len() && s[k].uid != info.uid ==> spec_record(s, info).contains(
            #[trigger] s[k],
        ),
        forall|k: int|
            0 <= k < spec_record(s, info).len() ==> #[trigger] spec_record(s, info)[k] == info || s.contains(
                spec_record(s, info)[k],
            ),
        forall|k: int| #![trigger spec_record(s, info)[k]]
            0 <= k < spec_record(s, info).len() && spec_record(s, info)[k].uid == info.uid
                ==> spec_record(s, info)[k] == info,
    decreases s.len(),
{
    let r = spec_record(s, info);
    if s.len() == 0 {
        assert(r[0] == info);
    } else if uid_key(s[0].uid) == uid_key(info.uid) {
        lemma_uid_key_injective(s[0].uid, info.uid);
        assert(r[0] == info);
        assert forall|k: int| 0 <= k < s.len() && s[k].uid != info.uid implies r.contains(#[trigger] s[k]) by {
            assert(r[k] == s[k]);
        }
        assert forall|k: int| 0 <= k < r.len() implies #[trigger] r[k] == info || s.contains(r[k]) by {
            if k > 0 {
                assert(r[k] == s[k]);
            }
        }
        assert forall|k: int| #![trigger r[k]] 0 <= k < r.len() && r[k].uid == info.uid implies r[k] == info by {
            if k > 0 {
                assert(r[k] == s[k]);
                assert(uid_key(s[0].uid) < uid_key(s[k].uid));
            }
        }
    } else if uid_key(info.uid) < uid_key(s[0].uid) {
        assert(r[0] == info);
        assert forall|k: int| 0 <= k < s.len() && s[k].uid != info.uid implies r.contains(#[trigger] s[k]) by {
            assert(r[k + 1] == s[k]);
        }
        assert forall|k: int| 0 <= k < r.len() implies #[trigger] r[k] == info || s.contains(r[k]) by {
            if k > 0 {
                assert(r[k] == s[k - 1]);
            }
        }
        assert forall|k: int| #![trigger r[k]] 0 <= k < r.len() && r[k].uid == info.uid implies r[k] == info by {
            if k > 0 {
                assert(r[k] == s[k - 1]);
                if k > 1 {
                    assert(uid_key(s[0].uid) < uid_key(s[k - 1].uid));
                }
            }
        }
        assert forall|a: int, b: int| 0 <= a < b < r.len() implies uid_key(r[a].uid) < uid_key(r[b].uid) by {
            if a == 0 {
                assert(r[b] == s[b - 1]);
                if b > 1 {
                    assert(uid_key(s[0].uid) < uid_key(s[b - 1].uid));
                }
            } else {
                assert(r[a] == s[a - 1]);
                assert(r[b] == s[b - 1]);
            }
        }
    } else {
        let t = s.drop_first();
        assert forall|a: int, b: int| 0 <= a < b < t.len() implies uid_key(t[a].uid) < uid_key(t[b].uid) by {
            assert(t[a] == s[a + 1]);
            assert(t[b] == s[b + 1]);
        }
        lemma_record_keeps_one_entry_per_uid(t, info);
        let rt = spec_record(t, info);
        assert(r =~= seq![s[0]] + rt);
        assert forall|k: int| 0 <= k < rt.len() implies uid_key(s[0].uid) < uid_key(#[trigger] rt[k].uid) by {
            if rt[k] != info {
                let j = choose|j: int| 0 <= j < t.len() && t[j] == rt[k];
                assert(t[j] == s[j + 1]);
            }
        }
        assert forall|k: int| 0 <= k < s.len() && s[k].uid != info.uid implies r.contains(#[trigger] s[k]) by {
            if k == 0 {
                assert(r[0] == s[0]);
            } else {
                assert(s[k] == t[k - 1]);
                let j = choose|j: int| 0 <= j < rt.len() && rt[j] == t[k - 1];
                assert(r[j + 1] == s[k]);
            }
        }
        assert forall|k: int| 0 <= k < r.len() implies #[trigger] r[k] == info || s.contains(r[k]) by {
            if k == 0 {
                assert(s[0] == r[0]);
            } else {
                assert(r[k] == rt[k - 1]);
                if rt[k - 1] != info {
                    let j = choose|j: int| 0 <= j < t.len() && t[j] == rt[k - 1];
                    assert(s[j + 1] == r[k]);
                }
            }
        }
        assert forall|k: int| #![trigger r[k]] 0 <= k < r.len() && r[k].uid == info.uid implies r[k] == info by {
            if k == 0 {
                assert(uid_key(s[0].uid) < uid_key(info.uid));
            } else {
                assert(r[k] == rt[k - 1]);
            }
        }
        assert(rt.contains(info));
        let j = choose|j: int| 0 <= j < rt.len() && rt[j] == info;
        assert(r[j + 1] == info);
        assert forall|a: int, b: int| 0 <= a < b < r.len() implies uid_key(r[a].uid) < uid_key(r[b].uid) by {
            assert(r[b] == rt[b - 1]);
            if a > 0 {
                assert(r[a] == rt[a - 1]);
            }
        }
    }
}

} // verus!
