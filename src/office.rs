use vstd::prelude::*;

verus! {

/// One office of the feed and the district it stands in.
#[derive(Clone, Debug)]
pub struct OfficeInfo {
    pub office_id: String,
    pub district: String,
}

/// The district of each office id that `pairs` names; a later pair
/// overrides an earlier one with the same id.
pub open spec fn pairs_map(pairs: Seq<(Seq<char>, Seq<char>)>) -> Map<Seq<char>, Seq<char>>
    decreases pairs.len(),
{
    if pairs.len() == 0 {
        Map::empty()
    } else {
        pairs_map(pairs.drop_last()).insert(pairs.last().0, pairs.last().1)
    }
}

/// The (id, district) pairs of an office list, in order.
pub open spec fn office_pairs(offices: Seq<OfficeInfo>) -> Seq<(Seq<char>, Seq<char>)> {
    offices.map_values(|o: OfficeInfo| (o.office_id@, o.district@))
}

/// The index that an office list gives: last write wins.
pub open spec fn index_of(offices: Seq<OfficeInfo>) -> Map<Seq<char>, Seq<char>> {
    pairs_map(office_pairs(offices))
}

/// Lookup from office id to district name.
pub struct OfficeIndex {
    entries: Vec<(String, String)>,
}

impl View for OfficeIndex {
    type V = Map<Seq<char>, Seq<char>>;

    closed spec fn view(&self) -> Map<Seq<char>, Seq<char>> {
        pairs_map(self.entries@.map_values(|e: (String, String)| (e.0@, e.1@)))
    }
}

/// Pairs after position `i` that do not name `k` leave its entry as the
/// first `i` pairs made it.
proof fn lemma_tail_without_key(pairs: Seq<(Seq<char>, Seq<char>)>, i: int, k: Seq<char>)
    requires
        0 <= i <= pairs.len(),
        forall|j: int| i <= j < pairs.len() ==> #[trigger] pairs[j].0 != k,
    ensures
        pairs_map(pairs).contains_key(k) == pairs_map(pairs.take(i)).contains_key(k),
        pairs_map(pairs).contains_key(k) ==> pairs_map(pairs)[k] == pairs_map(pairs.take(i))[k],
    decreases pairs.len(),
{
    if pairs.len() > i {
        let init = pairs.drop_last();
        assert(init.take(i) =~= pairs.take(i));
        lemma_tail_without_key(init, i, k);
    } else {
        assert(pairs.take(i) =~= pairs);
    }
}

impl OfficeIndex {
    /// An index with no office.
    pub fn new() -> (r: OfficeIndex)
        ensures
            r@ == Map::<Seq<char>, Seq<char>>::empty(),
    {
        OfficeIndex { entries: Vec::new() }
    }

    /// Records the district of an office, replacing what the id had before.
    pub fn insert(&mut self, office_id: String, district: String)
        ensures
            final(self)@ == old(self)@.insert(office_id@, district@),
    {
        let ghost before = self.entries@;
        self.entries.push((office_id, district));
        proof {
            let f = |e: (String, String)| (e.0@, e.1@);
            assert(self.entries@.map_values(f).drop_last() =~= before.map_values(f));
        }
    }

    /// The district of an office id, if the index holds it.
    pub fn get(&self, office_id: &String) -> (r: Option<String>)
        ensures
            r is Some <==> self@.contains_key(office_id@),
            r matches Some(d) ==> d@ == self@[office_id@],
    {
        let ghost pairs = self.entries@.map_values(|e: (String, String)| (e.0@, e.1@));
        let mut i: usize = self.entries.len();
        while i > 0
            invariant
                i <= self.entries.len(),
                pairs == self.entries@.map_values(|e: (String, String)| (e.0@, e.1@)),
                self@ == pairs_map(pairs),
                forall|j: int| i <= j < pairs.len() ==> #[trigger] pairs[j].0 != office_id@,
            decreases i,
        {
            if self.entries[i - 1].0 == *office_id {
                proof {
                    lemma_tail_without_key(pairs, i as int, office_id@);
                    assert(pairs.take(i as int).drop_last() =~= pairs.take(i - 1));
                }
                return Some(self.entries[i - 1].1.clone());
            }
            i = i - 1;
        }
        proof {
            lemma_tail_without_key(pairs, 0, office_id@);
        }
        None
    }
}

/// Builds the index of an office list; for an id named twice the later
/// office wins.
pub fn generate_office_id_map(offices: Vec<OfficeInfo>) -> (r: OfficeIndex)
    ensures
        r@ == index_of(offices@),
{
    let mut index = OfficeIndex::new();
    let mut i: usize = 0;
    while i < offices.len()
        invariant
            i <= offices.len(),
            index@ == index_of(offices@.take(i as int)),
        decreases offices.len() - i,
    {
        let o = &offices[i];
        index.insert(o.office_id.clone(), o.district.clone());
        proof {
            let next = offices@.take(i + 1);
            assert(office_pairs(next).drop_last() =~= office_pairs(offices@.take(i as int)));
        }
        i = i + 1;
    }
    assert(offices@.take(i as int) =~= offices@);
    index
}

/// Last write wins: the office at position `i`, when no later office has
/// its id, gives the district that the index holds for that id.
pub proof fn lemma_last_write_wins(offices: Seq<OfficeInfo>, i: int)
    requires
        0 <= i < offices.len(),
        forall|j: int|
            i < j < offices.len() ==> #[trigger] offices[j].office_id@ != offices[i].office_id@,
    ensures
        index_of(offices).contains_key(offices[i].office_id@),
        index_of(offices)[offices[i].office_id@] == offices[i].district@,
{
    let pairs = office_pairs(offices);
    let k = offices[i].office_id@;
    assert forall|j: int| i + 1 <= j < pairs.len() implies #[trigger] pairs[j].0 != k by {
        assert(pairs[j].0 == offices[j].office_id@);
    }
    lemma_tail_without_key(pairs, i + 1, k);
    assert(pairs.take(i + 1).drop_last() =~= pairs.take(i));
}

/// The index holds an id exactly when some office of the list names it.
pub proof fn lemma_index_domain(offices: Seq<OfficeInfo>, k: Seq<char>)
    ensures
        index_of(offices).contains_key(k)
            <==> exists|j: int| 0 <= j < offices.len() && #[trigger] offices[j].office_id@ == k,
    decreases offices.len(),
{
    if offices.len() > 0 {
        let init = offices.drop_last();
        assert(office_pairs(offices).drop_last() =~= office_pairs(init));
        lemma_index_domain(init, k);
        if exists|j: int| 0 <= j < offices.len() && #[trigger] offices[j].office_id@ == k {
            let j = choose|j: int| 0 <= j < offices.len() && #[trigger] offices[j].office_id@ == k;
            if j < offices.len() - 1 {
                assert(init[j].office_id@ == k);
            }
        }
        if exists|j: int| 0 <= j < init.len() && #[trigger] init[j].office_id@ == k {
            let j = choose|j: int| 0 <= j < init.len() && #[trigger] init[j].office_id@ == k;
            assert(offices[j].office_id@ == k);
        }
    }
}

} // verus!
