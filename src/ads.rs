//! Advertisements chosen by the categories of what the buyer looks at.

use crate::random::random_index;
use crate::types::Ad;
use vstd::prelude::*;

verus! {

/// How many ads are served when none match.
pub const MAX_ADS_TO_SERVE: usize = 2;

/// The ads of one category.
pub struct AdCategory {
    pub category: String,
    pub ads: Vec<Ad>,
}

/// The ads, grouped by category.
pub struct AdService {
    pub ads_map: Vec<AdCategory>,
}

/// The ads of the first entry for category `c`; none if no entry has it.
pub open spec fn category_ads(entries: Seq<AdCategory>, c: Seq<char>) -> Seq<Ad>
    decreases entries.len(),
{
    if entries.len() == 0 {
        Seq::empty()
    } else if entries[0].category@ == c {
        entries[0].ads@
    } else {
        category_ads(entries.drop_first(), c)
    }
}

/// Every ad, category by category.
pub open spec fn all_ads(entries: Seq<AdCategory>) -> Seq<Ad>
    decreases entries.len(),
{
    if entries.len() == 0 {
        Seq::empty()
    } else {
        all_ads(entries.drop_last()) + entries.last().ads@
    }
}

/// The ads of each key's category, key by key.
pub open spec fn ads_for_keys(entries: Seq<AdCategory>, keys: Seq<String>) -> Seq<Ad>
    decreases keys.len(),
{
    if keys.len() == 0 {
        Seq::empty()
    } else {
        ads_for_keys(entries, keys.drop_last()) + category_ads(entries, keys.last()@)
    }
}

/// Copies of the ads of a list.
fn duplicate_ads(ads: &Vec<Ad>) -> (r: Vec<Ad>)
    ensures
        r@ == ads@,
{
    let mut r: Vec<Ad> = Vec::new();
    let mut i: usize = 0;
    while i < ads.len()
        invariant
            i <= ads.len(),
            r@ == ads@.subrange(0, i as int),
        decreases ads.len() - i,
    {
        r.push(ads[i].duplicate());
        i += 1;
    }
    proof {
        assert(r@ =~= ads@);
    }
    r
}

fn category(name: &str, ads: Vec<Ad>) -> (r: AdCategory)
    ensures
        r.category@ == name@,
        r.ads@ == ads@,
{
    AdCategory { category: name.to_owned(), ads }
}

impl AdService {
    /// The storefront's ads: one for each of clothing, accessories,
    /// footwear, hair and decor, and two for kitchen.
    pub fn new() -> (r: AdService)
        ensures
            r.ads_map@.len() == 6,
            r.ads_map@[0].category@ == "clothing"@ && r.ads_map@[0].ads@.len() == 1,
            r.ads_map@[1].category@ == "accessories"@ && r.ads_map@[1].ads@.len() == 1,
            r.ads_map@[2].category@ == "footwear"@ && r.ads_map@[2].ads@.len() == 1,
            r.ads_map@[3].category@ == "hair"@ && r.ads_map@[3].ads@.len() == 1,
            r.ads_map@[4].category@ == "decor"@ && r.ads_map@[4].ads@.len() == 1,
            r.ads_map@[5].category@ == "kitchen"@ && r.ads_map@[5].ads@.len() == 2,
    {
        let hairdryer = Ad::new("2ZYFJ3GM2N", "Hairdryer for sale. 50% off.");
        let tank_top = Ad::new("66VCHSJNUP", "Tank top for sale. 20% off.");
        let candle_holder = Ad::new("0PUK6V6EV0", "Candle holder for sale. 30% off.");
        let bamboo_glass_jar = Ad::new("9SIQT8TOJO", "Bamboo glass jar for sale. 10% off.");
        let watch = Ad::new("1YMWWN1N4O", "Watch for sale. Buy one, get second kit for free.");
        let mug = Ad::new("6E92ZMYYFZ", "Mug for sale. Buy two, get third one for free.");
        let loafers = Ad::new("L9ECAV7KIM", "Loafers for sale. Buy one, get second one for free.");
        let mut ads_map: Vec<AdCategory> = Vec::new();
        ads_map.push(category("clothing", vec![tank_top]));
        ads_map.push(category("accessories", vec![watch]));
        ads_map.push(category("footwear", vec![loafers]));
        ads_map.push(category("hair", vec![hairdryer]));
        ads_map.push(category("decor", vec![candle_holder]));
        ads_map.push(category("kitchen", vec![bamboo_glass_jar, mug]));
        AdService { ads_map }
    }

    /// The ads of `category`; none if it has no entry.
    pub fn get_ads_by_category(&self, category: &str) -> (r: Vec<Ad>)
        ensures
            r@ == category_ads(self.ads_map@, category@),
    {
        let wanted = category.to_owned();
        proof {
            assert(self.ads_map@.subrange(0, self.ads_map@.len() as int) =~= self.ads_map@);
        }
        let mut i: usize = 0;
        while i < self.ads_map.len()
            invariant
                wanted@ == category@,
                i <= self.ads_map@.len(),
                category_ads(self.ads_map@, category@) == category_ads(
                    self.ads_map@.subrange(i as int, self.ads_map@.len() as int),
                    category@,
                ),
            decreases self.ads_map.len() - i,
        {
            let ghost rest = self.ads_map@.subrange(i as int, self.ads_map@.len() as int);
            proof {
                assert(rest.drop_first() =~= self.ads_map@.subrange(
                    i + 1,
                    self.ads_map@.len() as int,
                ));
            }
            if self.ads_map[i].category == wanted {
                return duplicate_ads(&self.ads_map[i].ads);
            }
            i += 1;
        }
        Vec::new()
    }

    /// Every ad, category by category.
    fn all_ads(&self) -> (r: Vec<Ad>)
        ensures
            r@ == all_ads(self.ads_map@),
    {
        let mut r: Vec<Ad> = Vec::new();
        let mut i: usize = 0;
        while i < self.ads_map.len()
            invariant
                i <= self.ads_map@.len(),
                r@ == all_ads(self.ads_map@.subrange(0, i as int)),
            decreases self.ads_map.len() - i,
        {
            let mut more = duplicate_ads(&self.ads_map[i].ads);
            r.append(&mut more);
            proof {
                assert(self.ads_map@.subrange(0, i + 1).drop_last() =~= self.ads_map@.subrange(
                    0,
                    i as int,
                ));
            }
            i += 1;
        }
        proof {
            assert(self.ads_map@.subrange(0, self.ads_map@.len() as int) =~= self.ads_map@);
        }
        r
    }

    /// `MAX_ADS_TO_SERVE` ads drawn at random, with repetition, from all
    /// ads; none if there are no ads.
    pub fn get_random_ads(&self) -> (r: Vec<Ad>)
        ensures
            all_ads(self.ads_map@).len() == 0 ==> r@.len() == 0,
            all_ads(self.ads_map@).len() > 0 ==> r@.len() == MAX_ADS_TO_SERVE,
            forall|k: int| 0 <= k < r@.len() ==> all_ads(self.ads_map@).contains(#[trigger] r@[k]),
    {
        let all = self.all_ads();
        let mut r: Vec<Ad> = Vec::new();
        if all.len() == 0 {
            return r;
        }
        let mut k: usize = 0;
        while k < MAX_ADS_TO_SERVE
            invariant
                all@ == all_ads(self.ads_map@),
                all@.len() > 0,
                k <= MAX_ADS_TO_SERVE,
                r@.len() == k,
                forall|j: int| 0 <= j < k ==> all@.contains(#[trigger] r@[j]),
            decreases MAX_ADS_TO_SERVE - k,
        {
            let i = random_index(all.len());
            r.push(all[i].duplicate());
            proof {
                assert(all@[i as int] == r@[k as int]);
            }
            k += 1;
        }
        r
    }

    /// The ads of the categories in `context_keys`, key by key; if that
    /// gives none, ads drawn at random.
    pub fn get_ads(&self, context_keys: &Vec<String>) -> (r: Vec<Ad>)
        ensures
            ads_for_keys(self.ads_map@, context_keys@).len() > 0 ==> r@ == ads_for_keys(
                self.ads_map@,
                context_keys@,
            ),
            ads_for_keys(self.ads_map@, context_keys@).len() == 0 ==> {
                &&& all_ads(self.ads_map@).len() == 0 ==> r@.len() == 0
                &&& all_ads(self.ads_map@).len() > 0 ==> r@.len() == MAX_ADS_TO_SERVE
                &&& forall|k: int|
                    0 <= k < r@.len() ==> all_ads(self.ads_map@).contains(#[trigger] r@[k])
            },
    {
        let mut ads: Vec<Ad> = Vec::new();
        let mut i: usize = 0;
        while i < context_keys.len()
            invariant
                i <= context_keys@.len(),
                ads@ == ads_for_keys(self.ads_map@, context_keys@.subrange(0, i as int)),
            decreases context_keys.len() - i,
        {
            let mut found = self.get_ads_by_category(context_keys[i].as_str());
            ads.append(&mut found);
            proof {
                assert(context_keys@.subrange(0, i + 1).drop_last() =~= context_keys@.subrange(
                    0,
                    i as int,
                ));
            }
            i += 1;
        }
        proof {
            assert(context_keys@.subrange(0, context_keys@.len() as int) =~= context_keys@);
        }
        if ads.len() == 0 {
            self.get_random_ads()
        } else {
            ads
        }
    }
}

} // verus!
