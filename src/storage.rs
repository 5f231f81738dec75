//! The channel/asset registry: allocation records under a pending and a
//! confirmed partition, and the list of assets watched for refresh.
use vstd::prelude::*;
use crate::types::{RgbInfo, RgbInfoView};

verus! {

/// Key prefix of the pending partition.
pub open spec fn pending_prefix() -> Seq<char> {
    seq!['p', 'e', 'n', 'd', 'i', 'n', 'g', '/', 'c', 'h', 'a', 'n', 'n', 'e', 'l', '/']
}

/// Key prefix of the confirmed partition.
pub open spec fn confirmed_prefix() -> Seq<char> {
    seq!['c', 'o', 'n', 'f', 'i', 'r', 'm', 'e', 'd', '/', 'c', 'h', 'a', 'n', 'n', 'e', 'l', '/']
}

/// The store key of a channel's record in one partition.
pub open spec fn db_key(channel_id: Seq<char>, is_pending: bool) -> Seq<char> {
    if is_pending {
        pending_prefix() + channel_id
    } else {
        confirmed_prefix() + channel_id
    }
}

/// Keys of distinct channels, or of distinct partitions, never collide.
pub proof fn lemma_db_key_injective(a: Seq<char>, pa: bool, b: Seq<char>, pb: bool)
    ensures
        db_key(a, pa) == db_key(b, pb) ==> a == b && pa == pb,
{
    if db_key(a, pa) == db_key(b, pb) {
        if pa != pb {
            assert(db_key(a, pa)[0] != db_key(b, pb)[0]);
        } else {
            let n = if pa { pending_prefix().len() } else { confirmed_prefix().len() };
            assert(a == db_key(a, pa).subrange(n as int, db_key(a, pa).len() as int));
            assert(b == db_key(b, pb).subrange(n as int, db_key(b, pb).len() as int));
        }
    }
}

/// After a successful promotion the record is confirmed under the final id
/// and pending under neither id; and when no channel was in both partitions
/// before, none is after.
pub proof fn lemma_promote_leaves_one_partition<S: RGBStorage>(
    before: S,
    after: S,
    provisional_id: Seq<char>,
    channel_id: Seq<char>,
    info: RgbInfoView,
)
    requires
        after.records() == before.records().insert(db_key(channel_id, false), info).remove(
            db_key(provisional_id, true),
        ).remove(db_key(channel_id, true)),
    ensures
        in_partition(after, channel_id, false),
        record_in(after, channel_id, false) == info,
        !in_partition(after, channel_id, true),
        !in_partition(after, provisional_id, true),
        (forall|x: Seq<char>| !(#[trigger] in_partition(before, x, true) && in_partition(before, x, false))) ==> (forall|x: Seq<char>|
            !(#[trigger] in_partition(after, x, true) && in_partition(after, x, false))),
{
    lemma_db_key_injective(channel_id, false, provisional_id, true);
    lemma_db_key_injective(channel_id, false, channel_id, true);
    if forall|x: Seq<char>| !(#[trigger] in_partition(before, x, true) && in_partition(before, x, false)) {
        assert forall|x: Seq<char>| !(#[trigger] in_partition(after, x, true) && in_partition(after, x, false)) by {
            lemma_db_key_injective(x, true, channel_id, false);
            lemma_db_key_injective(x, false, channel_id, false);
            if in_partition(after, x, true) && in_partition(after, x, false) {
                assert(x != channel_id);
                assert(in_partition(before, x, true));
                assert(in_partition(before, x, false));
            }
        }
    }
}

/// Whether a channel has a record in the given partition.
pub open spec fn in_partition<S: RGBStorage>(store: S, channel_id: Seq<char>, is_pending: bool) -> bool {
    store.records().contains_key(db_key(channel_id, is_pending))
}

/// The record of a channel in the given partition.
pub open spec fn record_in<S: RGBStorage>(store: S, channel_id: Seq<char>, is_pending: bool) -> RgbInfoView {
    store.records()[db_key(channel_id, is_pending)]
}

/// A registry backend: allocation records under the keys that [`db_key`]
/// gives, and the asset ids watched for refresh.
pub trait RGBStorage: Sized {
    /// The backend's own invariant.
    spec fn wf(&self) -> bool;

    /// The stored records, by store key.
    spec fn records(&self) -> Map<Seq<char>, RgbInfoView>;

    /// The asset ids watched for refresh, in the order they were added.
    spec fn watched(&self) -> Seq<Seq<char>>;

    /// An empty registry.
    fn new() -> (r: Self)
        ensures
            r.wf(),
            r.records() == Map::<Seq<char>, RgbInfoView>::empty(),
            r.watched() == Seq::<Seq<char>>::empty(),
    ;

    /// Whether a channel has a record in the given partition.
    fn is_channel_rgb(&self, channel_id: &str, is_pending: bool) -> (r: bool)
        requires
            self.wf(),
        ensures
            r == self.records().contains_key(db_key(channel_id@, is_pending)),
    ;

    /// The confirmed record of a channel.
    fn get_rgb_channel_info(&self, channel_id: &str) -> (r: Result<RgbInfo, StorageError>)
        requires
            self.wf(),
        ensures
            match r {
                Ok(info) => self.records().contains_key(db_key(channel_id@, false)) && info@ == self.records()[db_key(channel_id@, false)],
                Err(e) => !self.records().contains_key(db_key(channel_id@, false)) && e == StorageError::NotFound,
            },
    ;

    /// The pending record of a channel.
    fn get_rgb_channel_info_pending(&self, channel_id: &str) -> (r: Result<RgbInfo, StorageError>)
        requires
            self.wf(),
        ensures
            match r {
                Ok(info) => self.records().contains_key(db_key(channel_id@, true)) && info@ == self.records()[db_key(channel_id@, true)],
                Err(e) => !self.records().contains_key(db_key(channel_id@, true)) && e == StorageError::NotFound,
            },
    ;

    /// Store a record, replacing whatever the key held before.
    fn write_rgb_info(&mut self, channel_id: &str, is_pending: bool, info: &RgbInfo)
        requires
            old(self).wf(),
        ensures
            final(self).wf(),
            final(self).records() == old(self).records().insert(db_key(channel_id@, is_pending), info@),
            final(self).watched() == old(self).watched(),
    ;

    /// Drop the record of a channel in one partition, if there is one.
    fn remove_rgb_info(&mut self, channel_id: &str, is_pending: bool)
        requires
            old(self).wf(),
        ensures
            final(self).wf(),
            final(self).records() == old(self).records().remove(db_key(channel_id@, is_pending)),
            final(self).watched() == old(self).watched(),
    ;

    /// Watch an asset for refresh; an asset already watched is not added again.
    fn listen_for_asset(&mut self, asset_id: &str)
        requires
            old(self).wf(),
        ensures
            final(self).wf(),
            final(self).records() == old(self).records(),
            final(self).watched() == if old(self).watched().contains(asset_id@) {
                old(self).watched()
            } else {
                old(self).watched().push(asset_id@)
            },
    ;

    /// The asset ids watched for refresh, in the order they were added.
    fn get_assets_list(&self) -> (r: Vec<String>)
        ensures
            r@.map_values(|s: String| s@) == self.watched(),
    ;
}

/// An in-memory registry.
///
/// Records are stored under the key that [`db_key`] gives, at most one per key.
pub struct InMemoryStorage {
    entries: Vec<(String, RgbInfo)>,
    assets: Vec<String>,
    records: Ghost<Map<Seq<char>, RgbInfoView>>,
}

impl InMemoryStorage {
    /// The store key of a channel's record: `pending/channel/<id>` or `confirmed/channel/<id>`.
    pub fn derive_channel_db_key(&self, channel_id: &str, is_pending: bool) -> (r: String)
        ensures
            r@ == db_key(channel_id@, is_pending),
    {
        let mut key = if is_pending {
            let k = String::from_str("pending/channel/");
            proof {
                reveal_strlit("pending/channel/");
                assert(k@ == pending_prefix());
            }
            k
        } else {
            let k = String::from_str("confirmed/channel/");
            proof {
                reveal_strlit("confirmed/channel/");
                assert(k@ == confirmed_prefix());
            }
            k
        };
        key.append(channel_id);
        key
    }

    /// The position of a key among the entries, if it is stored.
    fn position(&self, key: &String) -> (r: Option<usize>)
        requires
            self.wf(),
        ensures
            match r {
                Some(i) => i < self.entries@.len() && self.entries@[i as int].0@ == key@,
                None => !self.records().contains_key(key@),
            },
    {
        let mut i: usize = 0;
        while i < self.entries.len()
            invariant
                self.wf(),
                i <= self.entries@.len(),
                forall|j: int| 0 <= j < i ==> #[trigger] self.entries@[j].0@ != key@,
            decreases self.entries@.len() - i,
        {
            if self.entries[i].0 == *key {
                return Some(i);
            }
            i = i + 1;
        }
        None
    }

    /// The record of a channel in the given partition, or `NotFound`.
    pub fn read(&self, channel_id: &str, is_pending: bool) -> (r: Result<RgbInfo, StorageError>)
        requires
            self.wf(),
        ensures
            match r {
                Ok(info) => self.records().contains_key(db_key(channel_id@, is_pending)) && info@ == self.records()[db_key(channel_id@, is_pending)],
                Err(e) => !self.records().contains_key(db_key(channel_id@, is_pending)) && e == StorageError::NotFound,
            },
    {
        let key = self.derive_channel_db_key(channel_id, is_pending);
        match self.position(&key) {
            Some(i) => {
                assert(self.records@.contains_key(self.entries@[i as int].0@));
                Ok(self.entries[i].1.duplicate())
            },
            None => Err(StorageError::NotFound),
        }
    }
}

impl RGBStorage for InMemoryStorage {
    /// Every key is stored once, and the ghost map holds exactly the stored records.
    closed spec fn wf(&self) -> bool {
        &&& forall|i: int, j: int|
            0 <= i < j < self.entries@.len() ==> #[trigger] self.entries@[i].0@
                != #[trigger] self.entries@[j].0@
        &&& forall|i: int|
            0 <= i < self.entries@.len() ==> #[trigger] self.records@.contains_key(
                self.entries@[i].0@,
            ) && self.records@[self.entries@[i].0@] == self.entries@[i].1@
        &&& forall|k: Seq<char>|
            #[trigger] self.records@.contains_key(k) ==> exists|i: int|
                0 <= i < self.entries@.len() && #[trigger] self.entries@[i].0@ == k
    }

    /// The stored records, by store key.
    closed spec fn records(&self) -> Map<Seq<char>, RgbInfoView> {
        self.records@
    }

    /// The asset ids watched for refresh, in the order they were added.
    closed spec fn watched(&self) -> Seq<Seq<char>> {
        self.assets@.map_values(|s: String| s@)
    }

    /// An empty registry.
    fn new() -> (r: InMemoryStorage)
    {
        let r = InMemoryStorage { entries: Vec::new(), assets: Vec::new(), records: Ghost(Map::empty()) };
        assert(r.watched() =~= Seq::<Seq<char>>::empty());
        r
    }

    /// Whether a channel has a record in the given partition.
    fn is_channel_rgb(&self, channel_id: &str, is_pending: bool) -> (r: bool)
    {
        let key = self.derive_channel_db_key(channel_id, is_pending);
        match self.position(&key) {
            Some(i) => true,
            None => false,
        }
    }

    /// The confirmed record of a channel.
    fn get_rgb_channel_info(&self, channel_id: &str) -> (r: Result<RgbInfo, StorageError>)
    {
        self.read(channel_id, false)
    }

    /// The pending record of a channel.
    fn get_rgb_channel_info_pending(&self, channel_id: &str) -> (r: Result<RgbInfo, StorageError>)
    {
        self.read(channel_id, true)
    }

    /// Store a record, replacing whatever the key held before.
    fn write_rgb_info(&mut self, channel_id: &str, is_pending: bool, info: &RgbInfo)
    {
        let key = self.derive_channel_db_key(channel_id, is_pending);
        let ghost old_entries = self.entries@;
        let ghost new_records = self.records@.insert(key@, info@);
        match self.position(&key) {
            Some(i) => {
                self.entries.set(i, (key, info.duplicate()));
                self.records = Ghost(new_records);
                assert forall|a: int, b: int|
                    0 <= a < b < self.entries@.len() implies #[trigger] self.entries@[a].0@
                    != #[trigger] self.entries@[b].0@ by {
                    assert(old_entries[a].0@ != old_entries[b].0@);
                }
                assert forall|a: int| 0 <= a < self.entries@.len() implies #[trigger] self.records@.contains_key(
                    self.entries@[a].0@,
                ) && self.records@[self.entries@[a].0@] == self.entries@[a].1@ by {
                    if a != i {
                        assert(old_entries[a].0@ != old_entries[i as int].0@);
                    }
                }
                assert forall|k: Seq<char>| #[trigger] self.records@.contains_key(k) implies exists|j: int|
                    0 <= j < self.entries@.len() && #[trigger] self.entries@[j].0@ == k by {
                    if k != self.entries@[i as int].0@ {
                        let j = choose|j: int| 0 <= j < old_entries.len() && #[trigger] old_entries[j].0@ == k;
                        assert(self.entries@[j].0@ == k);
                    }
                }
            },
            None => {
                self.entries.push((key, info.duplicate()));
                self.records = Ghost(new_records);
                assert forall|k: Seq<char>| #[trigger] self.records@.contains_key(k) implies exists|j: int|
                    0 <= j < self.entries@.len() && #[trigger] self.entries@[j].0@ == k by {
                    if k != self.entries@[old_entries.len() as int].0@ {
                        let j = choose|j: int| 0 <= j < old_entries.len() && #[trigger] old_entries[j].0@ == k;
                        assert(self.entries@[j].0@ == k);
                    }
                }
            },
        }
    }

    /// Drop the record of a channel in one partition, if there is one.
    fn remove_rgb_info(&mut self, channel_id: &str, is_pending: bool)
    {
        let key = self.derive_channel_db_key(channel_id, is_pending);
        let ghost old_entries = self.entries@;
        let ghost new_records = self.records@.remove(key@);
        match self.position(&key) {
            Some(i) => {
                self.entries.remove(i);
                self.records = Ghost(new_records);
                assert forall|a: int, b: int|
                    0 <= a < b < self.entries@.len() implies #[trigger] self.entries@[a].0@
                    != #[trigger] self.entries@[b].0@ by {
                    let oa = if a < i { a } else { a + 1 };
                    let ob = if b < i { b } else { b + 1 };
                    assert(self.entries@[a] == old_entries[oa]);
                    assert(self.entries@[b] == old_entries[ob]);
                }
                assert forall|a: int| 0 <= a < self.entries@.len() implies #[trigger] self.records@.contains_key(
                    self.entries@[a].0@,
                ) && self.records@[self.entries@[a].0@] == self.entries@[a].1@ by {
                    let oa = if a < i { a } else { a + 1 };
                    assert(self.entries@[a] == old_entries[oa]);
                }
                assert forall|k: Seq<char>| #[trigger] self.records@.contains_key(k) implies exists|j: int|
                    0 <= j < self.entries@.len() && #[trigger] self.entries@[j].0@ == k by {
                    let j = choose|j: int| 0 <= j < old_entries.len() && #[trigger] old_entries[j].0@ == k;
                    let nj = if j < i { j } else { j - 1 };
                    assert(self.entries@[nj] == old_entries[j]);
                }
            },
            None => {
                assert(self.records@ =~= new_records);
            },
        }
    }

    /// Add an asset id to the list watched for refresh.
    fn listen_for_asset(&mut self, asset_id: &str)
    {
        let id = String::from_str(asset_id);
        let mut i: usize = 0;
        while i < self.assets.len()
            invariant
                self.wf(),
                i <= self.assets@.len(),
                id@ == asset_id@,
                forall|j: int| 0 <= j < i ==> #[trigger] self.assets@[j]@ != asset_id@,
            decreases self.assets@.len() - i,
        {
            if self.assets[i] == id {
                assert(self.watched()[i as int] == asset_id@);
                return;
            }
            i = i + 1;
        }
        assert(!self.watched().contains(asset_id@)) by {
            assert forall|j: int| 0 <= j < self.watched().len() implies self.watched()[j] != asset_id@ by {
                assert(self.watched()[j] == self.assets@[j]@);
            }
        }
        let ghost before = self.watched();
        let ghost prior = *self;
        self.assets.push(id);
        assert(self.entries@ == prior.entries@ && self.records@ == prior.records@);
        assert forall|k: Seq<char>| #[trigger] self.records@.contains_key(k) implies exists|j: int|
            0 <= j < self.entries@.len() && #[trigger] self.entries@[j].0@ == k by {
            assert(prior.records@.contains_key(k));
        }
        assert(self.watched() =~= before.push(asset_id@));
    }

    /// The asset ids watched for refresh, in the order they were added.
    fn get_assets_list(&self) -> (r: Vec<String>)
    {
        let mut out: Vec<String> = Vec::new();
        let mut i: usize = 0;
        while i < self.assets.len()
            invariant
                i <= self.assets@.len(),
                out@.len() == i,
                forall|j: int| 0 <= j < i ==> #[trigger] out@[j]@ == self.assets@[j]@,
            decreases self.assets@.len() - i,
        {
            out.push(self.assets[i].clone());
            i = i + 1;
        }
        assert(out@.map_values(|s: String| s@) =~= self.watched());
        out
    }
}

/// Move a pending record to the confirmed partition under the final channel id.
///
/// The confirmed record is written first and then the pending one is retired,
/// along with any stale pending record under the final id, so the channel
/// ends in the confirmed partition alone.
pub fn promote<S: RGBStorage>(
    store: &mut S,
    provisional_id: &str,
    channel_id: &String,
) -> (r: Result<RgbInfo, StorageError>)
    requires
        old(store).wf(),
    ensures
        final(store).wf(),
        final(store).watched() == old(store).watched(),
        match r {
            Ok(info) => {
                &&& in_partition(*old(store), provisional_id@, true)
                &&& info@ == record_in(*old(store), provisional_id@, true).renamed(channel_id@)
                &&& final(store).records() == old(store).records().insert(
                    db_key(channel_id@, false),
                    info@,
                ).remove(db_key(provisional_id@, true)).remove(db_key(channel_id@, true))
            },
            Err(e) => {
                &&& !in_partition(*old(store), provisional_id@, true)
                &&& e == StorageError::NotFound
                &&& final(store).records() == old(store).records()
            },
        },
{
    match store.get_rgb_channel_info_pending(provisional_id) {
        Ok(mut info) => {
            info.channel_id = channel_id.clone();
            store.write_rgb_info(channel_id.as_str(), false, &info);
            store.remove_rgb_info(provisional_id, true);
            store.remove_rgb_info(channel_id.as_str(), true);
            Ok(info)
        },
        Err(e) => Err(e),
    }
}

/// Failure of a registry read.
#[derive(Clone, Copy, Debug, PartialEq, Eq, Structural)]
pub enum StorageError {
    /// The channel has no record in the partition asked for.
    NotFound,
}

} // verus!
