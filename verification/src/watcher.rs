//! The pool watcher's verified core: the program inventory, the pure
//! processing of snapshot batches and live account updates, and the
//! watcher configuration. The application owns the RPC snapshot loop,
//! the subscriptions and the resync timer, and hands their payloads in
//! as plain values.

use vstd::prelude::*;
use vstd::string::*;
use crate::decoders::{ConfigFees, TokenIntrospectionProvider, decode_pool, spec_config_fees};
use crate::types::{AddrKey, DexKind, PoolEvent, PoolId, PoolInfo, Pubkey};

verus! {

/// In-memory index of known pools: program, then pool account. Holds a
/// nested `dashmap::DashMap` keyed by address words.
#[verifier::external_body]
pub struct Inventory {
    inner: dashmap::DashMap<AddrKey, dashmap::DashMap<AddrKey, PoolInfo>>,
}

/// What the inventory holds: program to its map of pool accounts.
pub uninterp spec fn spec_inventory(inv: Inventory) -> Map<AddrKey, Map<AddrKey, PoolInfo>>;

/// The contents of an empty inventory.
pub open spec fn spec_no_inventory(inv: Inventory) -> bool {
    spec_inventory(inv) == Map::<AddrKey, Map<AddrKey, PoolInfo>>::empty()
}

/// The inventory contents after storing `info` under its program and
/// account: the program's map gains or replaces the pool's entry.
pub open spec fn spec_upserted(
    m: Map<AddrKey, Map<AddrKey, PoolInfo>>,
    info: PoolInfo,
) -> Map<AddrKey, Map<AddrKey, PoolInfo>> {
    m.insert(
        info.id.program.spec_key(),
        (if m.contains_key(info.id.program.spec_key()) {
            m[info.id.program.spec_key()]
        } else {
            Map::<AddrKey, PoolInfo>::empty()
        }).insert(info.id.account.spec_key(), info),
    )
}

/// Every per-program map is finite, so its pools can be counted.
pub open spec fn spec_inventory_wf(m: Map<AddrKey, Map<AddrKey, PoolInfo>>) -> bool {
    forall|k: AddrKey| #[trigger] m.contains_key(k) ==> m[k].dom().finite()
}

/// Relies on `dashmap::DashMap::new`: a fresh map holds nothing.
#[verifier::external_body]
fn inventory_new_raw() -> (r: Inventory)
    ensures
        spec_no_inventory(r),
{
    Inventory { inner: dashmap::DashMap::new() }
}

/// Relies on `dashmap::DashMap::entry`, `Entry::or_default` and
/// `DashMap::insert`: the pool is stored under its program, creating the
/// program's map when absent, and nothing else changes.
#[verifier::external_body]
fn inventory_upsert_raw(inv: &mut Inventory, p: AddrKey, a: AddrKey, info: PoolInfo)
    ensures
        spec_inventory(*final(inv)) == spec_inventory(*old(inv)).insert(
            p,
            (if spec_inventory(*old(inv)).contains_key(p) {
                spec_inventory(*old(inv))[p]
            } else {
                Map::<AddrKey, PoolInfo>::empty()
            }).insert(a, info),
        ),
{
    inv.inner.entry(p).or_default().insert(a, info);
}

/// Relies on `dashmap::DashMap::get` and `DashMap::remove`: the pool
/// leaves its program's map if both exist, and nothing else changes.
#[verifier::external_body]
fn inventory_remove_raw(inv: &mut Inventory, p: AddrKey, a: AddrKey)
    ensures
        spec_inventory(*final(inv)) == (if spec_inventory(*old(inv)).contains_key(p) {
            spec_inventory(*old(inv)).insert(p, spec_inventory(*old(inv))[p].remove(a))
        } else {
            spec_inventory(*old(inv))
        }),
{
    if let Some(m) = inv.inner.get(&p) {
        let _ = m.remove(&a);
    }
}

/// Relies on `dashmap::DashMap::get` and `DashMap::len`: the number of
/// pools stored under `p`, zero when the program is unknown.
#[verifier::external_body]
fn inventory_count_raw(inv: &Inventory, p: AddrKey) -> (r: usize)
    ensures
        !spec_inventory(*inv).contains_key(p) ==> r == 0,
        spec_inventory(*inv).contains_key(p) && spec_inventory(*inv)[p].dom().finite() ==> r
            == spec_inventory(*inv)[p].dom().len(),
{
    match inv.inner.get(&p) {
        Some(m) => m.len(),
        None => 0,
    }
}

impl Inventory {
    /// An empty inventory.
    pub fn new() -> (r: Inventory)
        ensures
            spec_no_inventory(r),
    {
        inventory_new_raw()
    }

    /// Store or replace a pool under its program.
    pub fn upsert(&mut self, info: PoolInfo)
        ensures
            spec_inventory(*final(self)) == spec_upserted(spec_inventory(*old(self)), info),
            spec_inventory_wf(spec_inventory(*old(self))) ==> spec_inventory_wf(
                spec_inventory(*final(self)),
            ),
    {
        let p = info.id.program.key();
        let a = info.id.account.key();
        inventory_upsert_raw(self, p, a, info);
        proof {
            if spec_inventory_wf(spec_inventory(*old(self))) {
                assert forall|k: AddrKey| #[trigger] spec_inventory(*self).contains_key(k)
                    implies spec_inventory(*self)[k].dom().finite() by {
                    if k == p {
                        if spec_inventory(*old(self)).contains_key(p) {
                            assert(spec_inventory(*old(self))[p].dom().finite());
                        } else {
                            assert(Map::<AddrKey, PoolInfo>::empty().dom().finite());
                        }
                    }
                }
            }
        }
    }

    /// Drop a pool from its program's map.
    pub fn remove(&mut self, id: &PoolId)
        ensures
            spec_inventory(*final(self)) == (if spec_inventory(*old(self)).contains_key(
                id.program.spec_key(),
            ) {
                spec_inventory(*old(self)).insert(
                    id.program.spec_key(),
                    spec_inventory(*old(self))[id.program.spec_key()].remove(
                        id.account.spec_key(),
                    ),
                )
            } else {
                spec_inventory(*old(self))
            }),
    {
        inventory_remove_raw(self, id.program.key(), id.account.key())
    }

    /// How many pools of `program` are known.
    pub fn count_program(&self, program: &Pubkey) -> (r: usize)
        ensures
            !spec_inventory(*self).contains_key(program.spec_key()) ==> r == 0,
            spec_inventory(*self).contains_key(program.spec_key()) && spec_inventory(
                *self,
            )[program.spec_key()].dom().finite() ==> r == spec_inventory(
                *self,
            )[program.spec_key()].dom().len(),
    {
        inventory_count_raw(self, program.key())
    }
}

/// One watched program: its address and DEX kind.
#[derive(Clone, Copy, PartialEq, Eq, Structural, Debug)]
pub struct ProgramConfig {
    pub id: Pubkey,
    pub kind: DexKind,
}

/// Watcher configuration: endpoints, watched programs, and the resync
/// period in minutes.
#[derive(Clone, Debug)]
pub struct PoolWatcherConfig {
    pub rpc_url: String,
    pub ws_url: String,
    pub programs: Vec<ProgramConfig>,
    pub periodic_resync_min: u64,
}

/// The Orca Whirlpools program `whirLbMiicVdio4qvUfM5KAg6Ct8VwpYzGff3uctyCc`.
pub open spec fn spec_orca_program_id() -> Pubkey {
    Pubkey {
        w0: 0x5390908e5f68030eu64,
        w1: 0x6aa7f5661c1258e4u64,
        w2: 0xf8821ca16a70c7edu64,
        w3: 0xa979782b8f2a95aau64,
    }
}

/// The Raydium CLMM program `CAMMCzo5YL8w4VFF8KVHrK22GGUsp5VTaW7grrKgrWqK`.
pub open spec fn spec_raydium_clmm_program_id() -> Pubkey {
    Pubkey {
        w0: 0xb55dcf049ecad5a5u64,
        w1: 0xb12ce32fba14b790u64,
        w2: 0x22b792c1c13f1359u64,
        w3: 0x1e40b09cd307fd57u64,
    }
}

/// The Raydium CPMM program `675kPX9MHTjS2zt1qfr1NYHuzeLXfQM9H24wFSUt1Mp8`.
pub open spec fn spec_raydium_cpmm_program_id() -> Pubkey {
    Pubkey {
        w0: 0x3fc30236c449d94bu64,
        w1: 0x4c52a316ed907720u64,
        w2: 0xa9a221f15c97b9a1u64,
        w3: 0xcd8ab6f87decff0cu64,
    }
}

impl Default for PoolWatcherConfig {
    /// Mainnet endpoints, a 30-minute resync, and the three supported
    /// DEX programs.
    fn default() -> (r: PoolWatcherConfig)
        ensures
            r.rpc_url@ == "https://api.mainnet-beta.solana.com"@,
            r.ws_url@ == "wss://api.mainnet-beta.solana.com"@,
            r.periodic_resync_min == 30,
            r.programs@.len() == 3,
            r.programs@[0] == (ProgramConfig {
                id: spec_orca_program_id(),
                kind: DexKind::OrcaWhirlpools,
            }),
            r.programs@[1] == (ProgramConfig {
                id: spec_raydium_clmm_program_id(),
                kind: DexKind::RaydiumClmm,
            }),
            r.programs@[2] == (ProgramConfig {
                id: spec_raydium_cpmm_program_id(),
                kind: DexKind::RaydiumCpmm,
            }),
    {
        let mut programs: Vec<ProgramConfig> = Vec::new();
        programs.push(
            ProgramConfig {
                id: Pubkey {
                    w0: 0x5390908e5f68030e,
                    w1: 0x6aa7f5661c1258e4,
                    w2: 0xf8821ca16a70c7ed,
                    w3: 0xa979782b8f2a95aa,
                },
                kind: DexKind::OrcaWhirlpools,
            },
        );
        programs.push(
            ProgramConfig {
                id: Pubkey {
                    w0: 0xb55dcf049ecad5a5,
                    w1: 0xb12ce32fba14b790,
                    w2: 0x22b792c1c13f1359,
                    w3: 0x1e40b09cd307fd57,
                },
                kind: DexKind::RaydiumClmm,
            },
        );
        programs.push(
            ProgramConfig {
                id: Pubkey {
                    w0: 0x3fc30236c449d94b,
                    w1: 0x4c52a316ed907720,
                    w2: 0xa9a221f15c97b9a1,
                    w3: 0xcd8ab6f87decff0c,
                },
                kind: DexKind::RaydiumCpmm,
            },
        );
        PoolWatcherConfig {
            rpc_url: String::from_str("https://api.mainnet-beta.solana.com"),
            ws_url: String::from_str("wss://api.mainnet-beta.solana.com"),
            programs,
            periodic_resync_min: 30,
        }
    }
}

/// The resync period actually used: the configured minutes, but never
/// below five.
pub fn clamp_resync_minutes(mins: u64) -> (r: u64)
    ensures
        r == (if mins >= 5 {
            mins
        } else {
            5u64
        }),
{
    if mins >= 5 {
        mins
    } else {
        5
    }
}

/// The side-table contents after one account of a batch: only Raydium
/// kinds feed it.
pub open spec fn spec_fees_after_one(
    kind: DexKind,
    account: Pubkey,
    data: Seq<u8>,
    fees: Map<AddrKey, u16>,
) -> Map<AddrKey, u16> {
    if kind != DexKind::OrcaWhirlpools {
        crate::decoders::spec_raydium_fees_after(account, data, fees)
    } else {
        fees
    }
}

/// The side-table contents after a whole batch.
pub open spec fn spec_fees_after_batch(
    kind: DexKind,
    accounts: Seq<(Pubkey, Seq<u8>)>,
    fees: Map<AddrKey, u16>,
) -> Map<AddrKey, u16>
    decreases accounts.len(),
{
    if accounts.len() == 0 {
        fees
    } else {
        spec_fees_after_batch(
            kind,
            accounts.drop_first(),
            spec_fees_after_one(kind, accounts[0].0, accounts[0].1, fees),
        )
    }
}

/// What a snapshot batch decodes to: for each account that the decoder
/// accepts, in order, the pool before token introspection and the data
/// length; the side table threads through the batch.
pub open spec fn spec_snapshot_decodes(
    kind: DexKind,
    program: Pubkey,
    accounts: Seq<(Pubkey, Seq<u8>)>,
    fees: Map<AddrKey, u16>,
) -> Seq<(PoolInfo, int)>
    decreases accounts.len(),
{
    if accounts.len() == 0 {
        Seq::<(PoolInfo, int)>::empty()
    } else {
        let head = match crate::decoders::spec_decode_pool_raw(
            kind,
            program,
            accounts[0].0,
            accounts[0].1,
            fees,
        ) {
            Some(info) => seq![(info, accounts[0].1.len() as int)],
            None => Seq::<(PoolInfo, int)>::empty(),
        };
        head + spec_snapshot_decodes(
            kind,
            program,
            accounts.drop_first(),
            spec_fees_after_one(kind, accounts[0].0, accounts[0].1, fees),
        )
    }
}

/// The decode an `AccountNew` event carries: the pool before token
/// introspection, and the payload length. Other events carry nothing.
pub open spec fn spec_event_decode(ev: PoolEvent) -> (PoolInfo, int) {
    match ev {
        PoolEvent::AccountNew { info, data_len, .. } => (
            crate::decoders::spec_strip_flags(info),
            data_len as int,
        ),
        _ => (
            PoolInfo {
                dex: DexKind::OrcaWhirlpools,
                id: crate::types::PoolId {
                    program: Pubkey { w0: 0u64, w1: 0u64, w2: 0u64, w3: 0u64 },
                    account: Pubkey { w0: 0u64, w1: 0u64, w2: 0u64, w3: 0u64 },
                },
                base_mint: None,
                quote_mint: None,
                fee_bps: None,
                tick_spacing: None,
                lp_mint: None,
                is_token2022_base: false,
                is_token2022_quote: false,
            },
            0,
        ),
    }
}

/// The inventory contents after storing every `AccountNew` event's pool,
/// in event order.
pub open spec fn spec_inventory_after_events(
    m: Map<AddrKey, Map<AddrKey, PoolInfo>>,
    events: Seq<PoolEvent>,
) -> Map<AddrKey, Map<AddrKey, PoolInfo>>
    decreases events.len(),
{
    if events.len() == 0 {
        m
    } else {
        let m1 = spec_inventory_after_events(m, events.drop_last());
        match events.last() {
            PoolEvent::AccountNew { info, .. } => spec_upserted(m1, info),
            _ => m1,
        }
    }
}

/// The plain-value view of a fetched account batch.
pub open spec fn spec_accounts_view(accounts: Seq<(Pubkey, Vec<u8>)>) -> Seq<(Pubkey, Seq<u8>)> {
    accounts.map_values(|p: (Pubkey, Vec<u8>)| (p.0, p.1@))
}

/// Decode a snapshot batch: every account the decoder accepts becomes an
/// `AccountNew` event, in order, and is stored in the inventory; the
/// batch count is the number of events.
pub fn process_snapshot_accounts<T: TokenIntrospectionProvider>(
    kind: DexKind,
    program: Pubkey,
    accounts: &Vec<(Pubkey, Vec<u8>)>,
    token: &T,
    fees: &mut ConfigFees,
    inventory: &mut Inventory,
) -> (events: Vec<PoolEvent>)
    requires
        spec_inventory_wf(spec_inventory(*old(inventory))),
    ensures
        spec_inventory_wf(spec_inventory(*final(inventory))),
        spec_inventory(*final(inventory)) == spec_inventory_after_events(
            spec_inventory(*old(inventory)),
            events@,
        ),
        forall|i: int|
            0 <= i < events@.len() ==> (#[trigger] events@[i] matches PoolEvent::AccountNew {
                info,
                data_len,
                slot,
            } && info.wf() && info.dex == kind && info.id.program == program && slot == 0u64),
        events@.map_values(|ev: PoolEvent| spec_event_decode(ev)) == spec_snapshot_decodes(
            kind,
            program,
            spec_accounts_view(accounts@),
            spec_config_fees(*old(fees)),
        ),
        spec_config_fees(*final(fees)) == spec_fees_after_batch(
            kind,
            spec_accounts_view(accounts@),
            spec_config_fees(*old(fees)),
        ),
{
    let ghost av = spec_accounts_view(accounts@);
    let ghost fees0 = spec_config_fees(*fees);
    let ghost inv0 = spec_inventory(*inventory);
    let mut events: Vec<PoolEvent> = Vec::new();
    let n = accounts.len();
    let mut i: usize = 0;
    proof {
        assert(av.skip(0) =~= av);
        assert(events@.map_values(|ev: PoolEvent| spec_event_decode(ev))
            =~= Seq::<(PoolInfo, int)>::empty());
        assert(spec_inventory_after_events(inv0, events@) == inv0);
    }
    while i < n
        invariant
            n == accounts@.len(),
            av == spec_accounts_view(accounts@),
            av.len() == n,
            i <= n,
            spec_inventory_wf(spec_inventory(*inventory)),
            inv0 == spec_inventory(*old(inventory)),
            spec_inventory(*inventory) == spec_inventory_after_events(inv0, events@),
            forall|j: int|
                0 <= j < events@.len() ==> (#[trigger] events@[j] matches PoolEvent::AccountNew {
                    info,
                    data_len,
                    slot,
                } && info.wf() && info.dex == kind && info.id.program == program && slot
                    == 0u64),
            spec_snapshot_decodes(kind, program, av, fees0) == events@.map_values(
                |ev: PoolEvent| spec_event_decode(ev),
            ) + spec_snapshot_decodes(kind, program, av.skip(i as int), spec_config_fees(*fees)),
            spec_fees_after_batch(kind, av, fees0) == spec_fees_after_batch(
                kind,
                av.skip(i as int),
                spec_config_fees(*fees),
            ),
        decreases n - i,
    {
        let ghost emitted = events@.map_values(|ev: PoolEvent| spec_event_decode(ev));
        let ghost fees_pre = spec_config_fees(*fees);
        let acc_key = accounts[i].0;
        let data = &accounts[i].1;
        proof {
            assert(av.skip(i as int)[0] == av[i as int]);
            assert(av[i as int] == (accounts@[i as int].0, accounts@[i as int].1@));
            assert(av.skip(i as int).drop_first() =~= av.skip(i + 1));
        }
        let ghost events_pre = events@;
        let decoded = decode_pool(kind, program, acc_key, data.as_slice(), token, fees);
        if let Some(info) = decoded {
            proof {
                assert(info.id.program == program && info.dex == kind && info.wf());
            }
            inventory.upsert(info);
            let data_len = data.len();
            events.push(PoolEvent::AccountNew { info, data_len, slot: 0 });
            proof {
                assert(events@.map_values(|ev: PoolEvent| spec_event_decode(ev)) =~= emitted
                    + seq![
                    (
                        crate::decoders::spec_strip_flags(info),
                        data@.len() as int,
                    ),
                ]);
                assert(events@.drop_last() =~= events_pre);
                assert(events@.last() == (PoolEvent::AccountNew {
                    info,
                    data_len: data@.len() as usize,
                    slot: 0u64,
                }));
                assert(spec_inventory_after_events(inv0, events@) == spec_upserted(
                    spec_inventory_after_events(inv0, events_pre),
                    info,
                ));
            }
        }
        proof {
            assert(spec_snapshot_decodes(kind, program, av.skip(i as int), fees_pre)
                == (match crate::decoders::spec_decode_pool_raw(
                kind,
                program,
                av[i as int].0,
                av[i as int].1,
                fees_pre,
            ) {
                Some(raw) => seq![(raw, av[i as int].1.len() as int)],
                None => Seq::<(PoolInfo, int)>::empty(),
            }) + spec_snapshot_decodes(
                kind,
                program,
                av.skip(i + 1),
                spec_fees_after_one(kind, av[i as int].0, av[i as int].1, fees_pre),
            ));
            assert(spec_config_fees(*fees) == spec_fees_after_one(
                kind,
                av[i as int].0,
                av[i as int].1,
                fees_pre,
            ));
            assert(spec_fees_after_batch(kind, av.skip(i as int), fees_pre)
                == spec_fees_after_batch(kind, av.skip(i + 1), spec_config_fees(*fees)));
        }
        i = i + 1;
    }
    proof {
        assert(av.skip(n as int) =~= Seq::<(Pubkey, Seq<u8>)>::empty());
        assert(events@.map_values(|ev: PoolEvent| spec_event_decode(ev))
            + Seq::<(PoolInfo, int)>::empty() =~= events@.map_values(
            |ev: PoolEvent| spec_event_decode(ev),
        ));
    }
    events
}

/// What base64 decoding of the payload yields, if it is valid.
pub uninterp spec fn spec_base64_decode(s: Seq<char>) -> Option<Seq<u8>>;

/// Relies on `base64::decode`: standard alphabet with padding; the
/// result is a function of the input text alone.
#[verifier::external_body]
fn base64_decode(s: &str) -> (r: Option<Vec<u8>>)
    ensures
        (match r {
            Some(v) => Some(v@),
            None => None::<Seq<u8>>,
        }) == spec_base64_decode(s@),
{
    base64::decode(s).ok()
}

/// Process one live account update: decode the base64 payload, attempt
/// the pool decoder, classify the update as a first sighting or a
/// mutation by whether the program already had pools in the inventory,
/// store the pool, and return the event to publish.
pub fn process_live_update<T: TokenIntrospectionProvider>(
    kind: DexKind,
    program: Pubkey,
    acc_key: Pubkey,
    data_b64: &str,
    token: &T,
    fees: &mut ConfigFees,
    inventory: &mut Inventory,
) -> (r: Option<PoolEvent>)
    requires
        spec_inventory_wf(spec_inventory(*old(inventory))),
    ensures
        spec_inventory_wf(spec_inventory(*final(inventory))),
        spec_base64_decode(data_b64@) is None ==> r is None && spec_config_fees(*final(fees))
            == spec_config_fees(*old(fees)),
        r is None ==> spec_inventory(*final(inventory)) == spec_inventory(*old(inventory)),
        r matches Some(ev) ==> {
            &&& (ev matches PoolEvent::AccountNew { info, data_len, slot } ==> info.wf()
                && info.dex == kind && info.id.program == program && info.id.account == acc_key
                && slot == 0u64 && spec_inventory(*final(inventory)) == spec_upserted(
                spec_inventory(*old(inventory)),
                info,
            ))
            &&& (ev matches PoolEvent::AccountChanged { info, data_len, slot } ==> info.wf()
                && info.dex == kind && info.id.program == program && info.id.account == acc_key
                && slot == 0u64 && spec_inventory(*final(inventory)) == spec_upserted(
                spec_inventory(*old(inventory)),
                info,
            ))
            &&& (ev is AccountNew || ev is AccountChanged)
            &&& (ev is AccountChanged <==> spec_inventory(*old(inventory)).contains_key(
                program.spec_key(),
            ) && spec_inventory(*old(inventory))[program.spec_key()].dom().len() > 0)
        },
        spec_base64_decode(data_b64@) matches Some(bytes) ==> {
            &&& (r is None <==> crate::decoders::spec_decode_pool_raw(
                kind,
                program,
                acc_key,
                bytes,
                spec_config_fees(*old(fees)),
            ) is None)
            &&& (r matches Some(ev) ==> (ev matches PoolEvent::AccountNew { info, data_len, .. }
                ==> Some(crate::decoders::spec_strip_flags(info))
                == crate::decoders::spec_decode_pool_raw(
                kind,
                program,
                acc_key,
                bytes,
                spec_config_fees(*old(fees)),
            ) && data_len == bytes.len()))
            &&& (r matches Some(ev) ==> (ev matches PoolEvent::AccountChanged {
                info,
                data_len,
                ..
            } ==> Some(crate::decoders::spec_strip_flags(info))
                == crate::decoders::spec_decode_pool_raw(
                kind,
                program,
                acc_key,
                bytes,
                spec_config_fees(*old(fees)),
            ) && data_len == bytes.len()))
            &&& spec_config_fees(*final(fees)) == spec_fees_after_one(
                kind,
                acc_key,
                bytes,
                spec_config_fees(*old(fees)),
            )
        },
{
    let bytes = match base64_decode(data_b64) {
        Some(v) => v,
        None => {
            return None;
        },
    };
    let data_len = bytes.len();
    let info = match decode_pool(kind, program, acc_key, bytes.as_slice(), token, fees) {
        Some(info) => info,
        None => {
            return None;
        },
    };
    let existed_before = inventory.count_program(&program) > 0;
    inventory.upsert(info);
    if existed_before {
        Some(PoolEvent::AccountChanged { info, data_len, slot: 0 })
    } else {
        Some(PoolEvent::AccountNew { info, data_len, slot: 0 })
    }
}

} // verus!
