//! The test catalogue the seed program fills an empty store with, and the
//! decisions it makes against what the store already holds.
use vstd::prelude::*;

use crate::bootstrap::{find_id_by_name, first_id_named};
use crate::list_request::{is_allowed, names};
use crate::text::{str_eq, string_of};
use crate::values::DecimalValue;

verus! {

/// A category of the catalogue, under the name of its parent.
#[derive(Debug)]
pub struct SeedCategory {
    pub name: String,
    pub parent: Option<String>,
}

/// A product of the catalogue: an item of the named category, with a price
/// and an initial stock.
#[derive(Debug)]
pub struct SeedProduct {
    pub name: String,
    pub base_price: DecimalValue,
    pub category: String,
    pub initial_stock: Option<i64>,
}

/// The categories of the catalogue, parents first: name and parent's name.
pub open spec fn seed_category_list() -> Seq<(Seq<char>, Option<Seq<char>>)> {
    seq![
        ("Электроника"@, None::<Seq<char>>),
        ("Книги"@, None::<Seq<char>>),
        ("Одежда и обувь"@, None::<Seq<char>>),
        ("Дом и сад"@, None::<Seq<char>>),
        ("Спорт и отдых"@, None::<Seq<char>>),
        ("Смартфоны"@, Some("Электроника"@)),
        ("Ноутбуки"@, Some("Электроника"@)),
        ("Наушники"@, Some("Электроника"@)),
        ("Android"@, Some("Смартфоны"@)),
        ("iOS"@, Some("Смартфоны"@)),
        ("Художественная литература"@, Some("Книги"@)),
        ("Научная литература"@, Some("Книги"@)),
        ("Детские книги"@, Some("Книги"@)),
        ("Мужская одежда"@, Some("Одежда и обувь"@)),
        ("Женская одежда"@, Some("Одежда и обувь"@)),
        ("Обувь"@, Some("Одежда и обувь"@)),
        ("Футболки"@, Some("Мужская одежда"@)),
        ("Джинсы"@, Some("Мужская одежда"@)),
        ("Мебель"@, Some("Дом и сад"@)),
        ("Освещение"@, Some("Дом и сад"@)),
        ("Садовый инвентарь"@, Some("Дом и сад"@)),
        ("Фитнес"@, Some("Спорт и отдых"@)),
        ("Туризм"@, Some("Спорт и отдых"@)),
    ]
}

/// The products of the catalogue: name, price, category and initial stock.
pub open spec fn seed_product_list() -> Seq<(Seq<char>, DecimalValue, Seq<char>, Option<i64>)> {
    seq![
        (
            "iPhone 15 Pro"@,
            DecimalValue { mantissa: 129999, scale: 2 },
            "iOS"@,
            Some(10i64),
        ),
        (
            "Samsung Galaxy S24"@,
            DecimalValue { mantissa: 99999, scale: 2 },
            "Android"@,
            Some(15i64),
        ),
        (
            "AirPods Pro"@,
            DecimalValue { mantissa: 24999, scale: 2 },
            "Наушники"@,
            Some(30i64),
        ),
        (
            "MacBook Air M2"@,
            DecimalValue { mantissa: 119999, scale: 2 },
            "Ноутбуки"@,
            Some(5i64),
        ),
        (
            "Мастер и Маргарита"@,
            DecimalValue { mantissa: 1599, scale: 2 },
            "Художественная литература"@,
            Some(100i64),
        ),
        (
            "Алгоритмы. Построение и анализ"@,
            DecimalValue { mantissa: 65, scale: 0 },
            "Научная литература"@,
            Some(40i64),
        ),
        (
            "Гарри Поттер и философский камень"@,
            DecimalValue { mantissa: 185, scale: 1 },
            "Детские книги"@,
            Some(80i64),
        ),
        (
            "Футболка хлопковая (M, белая)"@,
            DecimalValue { mantissa: 1999, scale: 2 },
            "Футболки"@,
            Some(50i64),
        ),
        (
            "Джинсы классические (32, синие)"@,
            DecimalValue { mantissa: 7999, scale: 2 },
            "Джинсы"@,
            Some(25i64),
        ),
        (
            "Светодиодный светильник потолочный"@,
            DecimalValue { mantissa: 45, scale: 0 },
            "Освещение"@,
            Some(20i64),
        ),
        (
            "Лопата садовая стальная"@,
            DecimalValue { mantissa: 2999, scale: 2 },
            "Садовый инвентарь"@,
            Some(15i64),
        ),
        (
            "Гантели 5 кг (пара)"@,
            DecimalValue { mantissa: 3999, scale: 2 },
            "Фитнес"@,
            Some(12i64),
        ),
        (
            "Палатка туристическая 2-местная"@,
            DecimalValue { mantissa: 19999, scale: 2 },
            "Туризм"@,
            Some(8i64),
        ),
    ]
}

/// The categories as plain values.
pub open spec fn seed_categories_view(cs: Seq<SeedCategory>) -> Seq<
    (Seq<char>, Option<Seq<char>>),
> {
    cs.map_values(
        |c: SeedCategory|
            (
                c.name@,
                match c.parent {
                    Some(p) => Some(p@),
                    None => None,
                },
            ),
    )
}

/// The products as plain values.
pub open spec fn seed_products_view(ps: Seq<SeedProduct>) -> Seq<
    (Seq<char>, DecimalValue, Seq<char>, Option<i64>),
> {
    ps.map_values(|p: SeedProduct| (p.name@, p.base_price, p.category@, p.initial_stock))
}

fn category(name: &str, parent: Option<&str>) -> (r: SeedCategory)
    ensures
        r.name@ == name@,
        match parent {
            Some(p) => r.parent matches Some(q) && q@ == p@,
            None => r.parent is None,
        },
{
    SeedCategory {
        name: string_of(name),
        parent: match parent {
            Some(p) => Some(string_of(p)),
            None => None,
        },
    }
}

fn product(name: &str, mantissa: i128, scale: u32, category: &str, stock: i64) -> (r: SeedProduct)
    ensures
        r.name@ == name@,
        r.base_price == (DecimalValue { mantissa, scale }),
        r.category@ == category@,
        r.initial_stock == Some(stock),
{
    SeedProduct {
        name: string_of(name),
        base_price: DecimalValue { mantissa, scale },
        category: string_of(category),
        initial_stock: Some(stock),
    }
}

/// The categories of the catalogue, in the order they are created.
pub fn seed_categories() -> (r: Vec<SeedCategory>)
    ensures
        seed_categories_view(r@) == seed_category_list(),
{
    let mut r: Vec<SeedCategory> = Vec::new();
    r.push(category("Электроника", None));
    r.push(category("Книги", None));
    r.push(category("Одежда и обувь", None));
    r.push(category("Дом и сад", None));
    r.push(category("Спорт и отдых", None));
    r.push(category("Смартфоны", Some("Электроника")));
    r.push(category("Ноутбуки", Some("Электроника")));
    r.push(category("Наушники", Some("Электроника")));
    r.push(category("Android", Some("Смартфоны")));
    r.push(category("iOS", Some("Смартфоны")));
    r.push(category("Художественная литература", Some("Книги")));
    r.push(category("Научная литература", Some("Книги")));
    r.push(category("Детские книги", Some("Книги")));
    r.push(category("Мужская одежда", Some("Одежда и обувь")));
    r.push(category("Женская одежда", Some("Одежда и обувь")));
    r.push(category("Обувь", Some("Одежда и обувь")));
    r.push(category("Футболки", Some("Мужская одежда")));
    r.push(category("Джинсы", Some("Мужская одежда")));
    r.push(category("Мебель", Some("Дом и сад")));
    r.push(category("Освещение", Some("Дом и сад")));
    r.push(category("Садовый инвентарь", Some("Дом и сад")));
    r.push(category("Фитнес", Some("Спорт и отдых")));
    r.push(category("Туризм", Some("Спорт и отдых")));
    assert(seed_categories_view(r@) =~= seed_category_list());
    r
}

/// The products of the catalogue, in the order they are created.
pub fn seed_products() -> (r: Vec<SeedProduct>)
    ensures
        seed_products_view(r@) == seed_product_list(),
{
    let mut r: Vec<SeedProduct> = Vec::new();
    r.push(product("iPhone 15 Pro", 129999, 2, "iOS", 10));
    r.push(product("Samsung Galaxy S24", 99999, 2, "Android", 15));
    r.push(product("AirPods Pro", 24999, 2, "Наушники", 30));
    r.push(product("MacBook Air M2", 119999, 2, "Ноутбуки", 5));
    r.push(product(
        "Мастер и Маргарита",
        1599,
        2,
        "Художественная литература",
        100,
    ));
    r.push(product(
        "Алгоритмы. Построение и анализ",
        65,
        0,
        "Научная литература",
        40,
    ));
    r.push(product(
        "Гарри Поттер и философский камень",
        185,
        1,
        "Детские книги",
        80,
    ));
    r.push(product(
        "Футболка хлопковая (M, белая)",
        1999,
        2,
        "Футболки",
        50,
    ));
    r.push(product(
        "Джинсы классические (32, синие)",
        7999,
        2,
        "Джинсы",
        25,
    ));
    r.push(product(
        "Светодиодный светильник потолочный",
        45,
        0,
        "Освещение",
        20,
    ));
    r.push(product(
        "Лопата садовая стальная",
        2999,
        2,
        "Садовый инвентарь",
        15,
    ));
    r.push(product("Гантели 5 кг (пара)", 3999, 2, "Фитнес", 12));
    r.push(product(
        "Палатка туристическая 2-местная",
        19999,
        2,
        "Туризм",
        8,
    ));
    assert(seed_products_view(r@) =~= seed_product_list());
    r
}

/// Where the parent of category `i` stands in the catalogue.
spec fn seed_parent_index(i: int) -> int {
    seq![-1, -1, -1, -1, -1, 0, 0, 0, 5, 5, 1, 1, 1, 2, 2, 2, 13, 13, 3, 3, 3, 4, 4][i]
}

/// Where the category of product `i` stands in the catalogue.
spec fn seed_category_index(i: int) -> int {
    seq![9, 8, 7, 6, 10, 11, 12, 16, 17, 19, 20, 21, 22][i]
}

/// Every category of the catalogue comes after its parent, so that the
/// parent exists, and its id is known, when the category is created.
pub proof fn lemma_seed_parents_come_first()
    ensures
        forall|i: int|
            0 <= i < seed_category_list().len() ==> match #[trigger] seed_category_list()[i].1 {
                Some(p) => exists|j: int| 0 <= j < i && seed_category_list()[j].0 == p,
                None => true,
            },
{
    let cs = seed_category_list();
    assert(cs.len() == 23);
    assert forall|i: int| 0 <= i < cs.len() implies match #[trigger] cs[i].1 {
        Some(p) => exists|j: int| 0 <= j < i && cs[j].0 == p,
        None => true,
    } by {
        assert(i == 0 || i == 1 || i == 2 || i == 3 || i == 4 || i == 5 || i == 6 || i == 7 || i == 8 || i == 9 || i == 10 || i == 11 || i == 12 || i == 13 || i == 14 || i == 15 || i == 16 || i == 17 || i == 18 || i == 19 || i == 20 || i == 21 || i == 22);
        if cs[i].1 is Some {
            let j = seed_parent_index(i);
            assert(0 <= j < i && cs[j].0 == cs[i].1->0);
        }
    }
}

/// Every product of the catalogue belongs to a category of the catalogue.
pub proof fn lemma_seed_product_categories_exist()
    ensures
        forall|i: int|
            0 <= i < seed_product_list().len() ==> exists|j: int|
                0 <= j < seed_category_list().len() && seed_category_list()[j].0
                    == (#[trigger] seed_product_list()[i]).2,
{
    let cs = seed_category_list();
    let ps = seed_product_list();
    assert(cs.len() == 23);
    assert(ps.len() == 13);
    assert forall|i: int| 0 <= i < ps.len() implies exists|j: int|
        0 <= j < cs.len() && cs[j].0 == (#[trigger] ps[i]).2 by {
        assert(i == 0 || i == 1 || i == 2 || i == 3 || i == 4 || i == 5 || i == 6 || i == 7 || i == 8 || i == 9 || i == 10 || i == 11 || i == 12);
        let j = seed_category_index(i);
        assert(0 <= j < cs.len() && cs[j].0 == ps[i].2);
    }
}

/// The id `name` maps to once `(id, name)` pairs are collected into a map:
/// that of the last pair with the name.
pub open spec fn last_id_named(pairs: Seq<(i64, String)>, name: Seq<char>) -> Option<i64>
    decreases pairs.len(),
{
    if pairs.len() == 0 {
        None
    } else if pairs.last().1@ == name {
        Some(pairs.last().0)
    } else {
        last_id_named(pairs.drop_last(), name)
    }
}

/// The id of the last `(id, name)` pair called `name`.
pub fn find_last_id_by_name(pairs: &Vec<(i64, String)>, name: &str) -> (r: Option<i64>)
    ensures
        r == last_id_named(pairs@, name@),
{
    let mut i: usize = pairs.len();
    assert(pairs@.take(i as int) =~= pairs@);
    while i > 0
        invariant
            i <= pairs@.len(),
            last_id_named(pairs@, name@) == last_id_named(pairs@.take(i as int), name@),
        decreases i,
    {
        proof {
            assert(pairs@.take(i as int).drop_last() =~= pairs@.take(i - 1));
        }
        if str_eq(pairs[i - 1].1.as_str(), name) {
            return Some(pairs[i - 1].0);
        }
        i = i - 1;
    }
    None
}

/// The user the seed acts as: the system.
pub const SYSTEM_USER_ID: i64 = 1;

/// The kind of product the catalogue holds: items only.
#[derive(Clone, Copy, Debug, PartialEq, Eq, Structural)]
pub enum SeedProductKind {
    Item,
}

/// A product the seed creates: an item of the catalogue in its category,
/// sold by the store itself (the `internal` provider) and created by the
/// system user, with no image, details, fulfillment, subscription or outside id.
#[derive(Debug)]
pub struct NewSeedProduct {
    pub name: String,
    pub base_price: DecimalValue,
    pub category_id: i64,
    pub kind: SeedProductKind,
    pub provider_name: String,
    pub created_by: i64,
    pub initial_stock: Option<i64>,
}

/// What the seed does with a product of the catalogue.
#[derive(Debug)]
pub enum SeedAction {
    /// A product of that name is already in the store.
    Skip,
    /// The product is created.
    Create(NewSeedProduct),
}

/// The product the seed creates for a catalogue entry in the given category.
pub open spec fn new_seed_product_of(p: NewSeedProduct, product: SeedProduct, category_id: i64) -> bool {
    &&& p.name@ == product.name@
    &&& p.base_price == product.base_price
    &&& p.category_id == category_id
    &&& p.kind == SeedProductKind::Item
    &&& p.provider_name@ == "internal"@
    &&& p.created_by == SYSTEM_USER_ID
    &&& p.initial_stock == product.initial_stock
}

/// What the seed does with a product: nothing when a product of that name
/// is already in the store; else it creates it in the category of that name
/// (the last one, as a map of the categories by name holds it). `None` when
/// the product is to be created and no category has that name, which the
/// seed cannot get past.
pub fn product_seed_action(
    existing_names: &Vec<String>,
    categories: &Vec<(i64, String)>,
    product: &SeedProduct,
) -> (r: Option<SeedAction>)
    ensures
        names(existing_names@).contains(product.name@) ==> r matches Some(SeedAction::Skip),
        !names(existing_names@).contains(product.name@) ==> match last_id_named(
            categories@,
            product.category@,
        ) {
            Some(id) => r matches Some(SeedAction::Create(p)) && new_seed_product_of(p, *product, id),
            None => r is None,
        },
{
    if is_allowed(existing_names, product.name.as_str()) {
        return Some(SeedAction::Skip);
    }
    match find_last_id_by_name(categories, product.category.as_str()) {
        Some(id) => Some(
            SeedAction::Create(
                NewSeedProduct {
                    name: string_of(product.name.as_str()),
                    base_price: product.base_price,
                    category_id: id,
                    kind: SeedProductKind::Item,
                    provider_name: string_of("internal"),
                    created_by: SYSTEM_USER_ID,
                    initial_stock: product.initial_stock,
                },
            ),
        ),
        None => None,
    }
}

/// The products a seed run creates, as plain values: name, price, category
/// id and initial stock.
pub open spec fn new_seed_products_view(ps: Seq<NewSeedProduct>) -> Seq<
    (Seq<char>, DecimalValue, i64, Option<i64>),
> {
    ps.map_values(|p: NewSeedProduct| (p.name@, p.base_price, p.category_id, p.initial_stock))
}

/// A product the seed creates is an item sold by the store itself and
/// created by the system user.
pub open spec fn seeded_by_system(p: NewSeedProduct) -> bool {
    &&& p.kind == SeedProductKind::Item
    &&& p.provider_name@ == "internal"@
    &&& p.created_by == SYSTEM_USER_ID
}

/// What one seed run does with the products of `catalogue`, in order: it
/// creates each one whose name is not among `existing_names`, in the
/// category of its name (the last one, as a map of the categories by name
/// holds it), until it meets one to create whose category has no id; it
/// stops there, and the second part is that category's name.
pub open spec fn product_seed_plan_of(
    existing_names: Seq<Seq<char>>,
    categories: Seq<(i64, String)>,
    catalogue: Seq<(Seq<char>, DecimalValue, Seq<char>, Option<i64>)>,
) -> (Seq<(Seq<char>, DecimalValue, i64, Option<i64>)>, Option<Seq<char>>)
    decreases catalogue.len(),
{
    if catalogue.len() == 0 {
        (seq![], None)
    } else {
        let prev = product_seed_plan_of(existing_names, categories, catalogue.drop_last());
        let p = catalogue.last();
        if prev.1 is Some || existing_names.contains(p.0) {
            prev
        } else {
            match last_id_named(categories, p.2) {
                Some(id) => (prev.0.push((p.0, p.1, id, p.3)), None),
                None => (prev.0, Some(p.2)),
            }
        }
    }
}

/// What a seed run does with the products: those it creates, in order, and
/// the name of the category it stops at, if it meets one that has no id.
#[derive(Debug)]
pub struct ProductSeedPlan {
    pub create: Vec<NewSeedProduct>,
    pub missing_category: Option<String>,
}

/// Once a run has stopped at a missing category, the rest of the catalogue
/// changes nothing.
proof fn lemma_product_plan_stays_stopped(
    existing_names: Seq<Seq<char>>,
    categories: Seq<(i64, String)>,
    catalogue: Seq<(Seq<char>, DecimalValue, Seq<char>, Option<i64>)>,
    i: int,
)
    requires
        0 <= i <= catalogue.len(),
        product_seed_plan_of(existing_names, categories, catalogue.take(i)).1 is Some,
    ensures
        product_seed_plan_of(existing_names, categories, catalogue) == product_seed_plan_of(
            existing_names,
            categories,
            catalogue.take(i),
        ),
    decreases catalogue.len() - i,
{
    if i == catalogue.len() {
        assert(catalogue.take(i) =~= catalogue);
    } else {
        assert(catalogue.take(i + 1).drop_last() =~= catalogue.take(i));
        lemma_product_plan_stays_stopped(existing_names, categories, catalogue, i + 1);
    }
}

/// What one seed run does with the products of `catalogue`: the products
/// whose names are not among `existing_names`, in catalogue order, each in
/// its category's id, up to the first one whose category has no id, whose
/// category name is then given.
pub fn seed_product_plan(
    existing_names: &Vec<String>,
    categories: &Vec<(i64, String)>,
    catalogue: &Vec<SeedProduct>,
) -> (r: ProductSeedPlan)
    ensures
        (
            new_seed_products_view(r.create@),
            match r.missing_category {
                Some(c) => Some(c@),
                None => None,
            },
        ) == product_seed_plan_of(
            names(existing_names@),
            categories@,
            seed_products_view(catalogue@),
        ),
        forall|k: int| 0 <= k < r.create@.len() ==> seeded_by_system(#[trigger] r.create@[k]),
{
    let ghost all = seed_products_view(catalogue@);
    let ghost ns = names(existing_names@);
    let mut create: Vec<NewSeedProduct> = Vec::new();
    let mut i: usize = 0;
    proof {
        assert(all.take(0) =~= Seq::<(Seq<char>, DecimalValue, Seq<char>, Option<i64>)>::empty());
        assert(new_seed_products_view(create@) =~= seq![]);
    }
    while i < catalogue.len()
        invariant
            0 <= i <= catalogue.len(),
            all == seed_products_view(catalogue@),
            ns == names(existing_names@),
            product_seed_plan_of(ns, categories@, all.take(i as int)) == (
                new_seed_products_view(create@),
                None::<Seq<char>>,
            ),
            forall|k: int| 0 <= k < create@.len() ==> seeded_by_system(#[trigger] create@[k]),
        decreases catalogue.len() - i,
    {
        let product = &catalogue[i];
        proof {
            assert(all.take(i + 1).drop_last() =~= all.take(i as int));
            assert(all.take(i + 1).last() == all[i as int]);
        }
        let ghost old_create = create@;
        match product_seed_action(existing_names, categories, product) {
            Some(SeedAction::Skip) => {},
            Some(SeedAction::Create(p)) => {
                create.push(p);
                proof {
                    assert(new_seed_products_view(create@) =~= new_seed_products_view(
                        old_create,
                    ).push((product.name@, product.base_price, p.category_id, product.initial_stock)));
                    assert forall|k: int| 0 <= k < create@.len() implies seeded_by_system(
                        #[trigger] create@[k],
                    ) by {
                        if k < old_create.len() {
                            assert(create@[k] == old_create[k]);
                        }
                    }
                }
            },
            None => {
                let missing = string_of(product.category.as_str());
                proof {
                    lemma_product_plan_stays_stopped(ns, categories@, all, i + 1);
                    assert(all.take(catalogue@.len() as int) =~= all);
                }
                return ProductSeedPlan { create, missing_category: Some(missing) };
            },
        }
        i = i + 1;
    }
    proof {
        assert(all.take(catalogue@.len() as int) =~= all);
    }
    ProductSeedPlan { create, missing_category: None }
}

/// The names of the products a run creates.
pub open spec fn planned_product_names(plan: Seq<(Seq<char>, DecimalValue, i64, Option<i64>)>) -> Seq<
    Seq<char>,
> {
    plan.map_values(|p: (Seq<char>, DecimalValue, i64, Option<i64>)| p.0)
}

/// After a run that did not stop, every product of the catalogue is among
/// the names that were there or among those the run created.
proof fn lemma_product_plan_covers(
    existing_names: Seq<Seq<char>>,
    categories: Seq<(i64, String)>,
    catalogue: Seq<(Seq<char>, DecimalValue, Seq<char>, Option<i64>)>,
)
    requires
        product_seed_plan_of(existing_names, categories, catalogue).1 is None,
    ensures
        forall|i: int|
            0 <= i < catalogue.len() ==> existing_names.contains(#[trigger] catalogue[i].0)
                || planned_product_names(
                product_seed_plan_of(existing_names, categories, catalogue).0,
            ).contains(catalogue[i].0),
    decreases catalogue.len(),
{
    if catalogue.len() > 0 {
        let rest = catalogue.drop_last();
        let prev = product_seed_plan_of(existing_names, categories, rest);
        let cur = product_seed_plan_of(existing_names, categories, catalogue);
        lemma_product_plan_covers(existing_names, categories, rest);
        let pn = planned_product_names(prev.0);
        let cn = planned_product_names(cur.0);
        assert forall|i: int| 0 <= i < catalogue.len() implies existing_names.contains(
            #[trigger] catalogue[i].0,
        ) || cn.contains(catalogue[i].0) by {
            if cur.0 != prev.0 {
                let x = cur.0.last();
                assert(cur.0 =~= prev.0.push(x));
                assert(cn =~= pn.push(x.0));
                if i < rest.len() {
                    assert(rest[i] == catalogue[i]);
                    if pn.contains(catalogue[i].0) {
                        let k = choose|k: int| 0 <= k < pn.len() && pn[k] == catalogue[i].0;
                        assert(cn[k] == catalogue[i].0);
                    }
                } else {
                    assert(cn[cn.len() - 1] == catalogue[i].0);
                }
            } else if i < rest.len() {
                assert(rest[i] == catalogue[i]);
            }
        }
    }
}

/// A run over a store that holds every product of the catalogue creates
/// nothing and does not stop.
proof fn lemma_product_plan_all_present(
    existing_names: Seq<Seq<char>>,
    categories: Seq<(i64, String)>,
    catalogue: Seq<(Seq<char>, DecimalValue, Seq<char>, Option<i64>)>,
)
    requires
        forall|i: int| 0 <= i < catalogue.len() ==> existing_names.contains(#[trigger] catalogue[i].0),
    ensures
        product_seed_plan_of(existing_names, categories, catalogue) == (
            Seq::<(Seq<char>, DecimalValue, i64, Option<i64>)>::empty(),
            None::<Seq<char>>,
        ),
    decreases catalogue.len(),
{
    if catalogue.len() > 0 {
        let rest = catalogue.drop_last();
        assert forall|i: int| 0 <= i < rest.len() implies existing_names.contains(
            #[trigger] rest[i].0,
        ) by {
            assert(rest[i] == catalogue[i]);
        }
        lemma_product_plan_all_present(existing_names, categories, rest);
        assert(existing_names.contains(catalogue[catalogue.len() - 1].0));
    }
}

/// Seeding the products twice creates them once: when the first run did
/// not stop, a second run over a store that holds the names found and those
/// created (whatever its categories) creates nothing and does not stop.
pub proof fn lemma_product_seed_rerun_creates_nothing(
    existing_names: Seq<Seq<char>>,
    categories: Seq<(i64, String)>,
    catalogue: Seq<(Seq<char>, DecimalValue, Seq<char>, Option<i64>)>,
    names_after: Seq<Seq<char>>,
    categories_after: Seq<(i64, String)>,
)
    requires
        product_seed_plan_of(existing_names, categories, catalogue).1 is None,
        forall|n: Seq<char>| existing_names.contains(n) ==> #[trigger] names_after.contains(n),
        forall|n: Seq<char>|
            planned_product_names(
                product_seed_plan_of(existing_names, categories, catalogue).0,
            ).contains(n) ==> #[trigger] names_after.contains(n),
    ensures
        product_seed_plan_of(names_after, categories_after, catalogue) == (
            Seq::<(Seq<char>, DecimalValue, i64, Option<i64>)>::empty(),
            None::<Seq<char>>,
        ),
{
    lemma_product_plan_covers(existing_names, categories, catalogue);
    assert forall|i: int| 0 <= i < catalogue.len() implies names_after.contains(
        #[trigger] catalogue[i].0,
    ) by {}
    lemma_product_plan_all_present(names_after, categories_after, catalogue);
}

/// A name that one of the pairs carries has an id by the last pair of that name.
proof fn lemma_last_named_is_found(pairs: Seq<(i64, String)>, k: int, name: Seq<char>)
    requires
        0 <= k < pairs.len(),
        pairs[k].1@ == name,
    ensures
        last_id_named(pairs, name) is Some,
    decreases pairs.len(),
{
    if pairs.last().1@ != name {
        assert(pairs.drop_last()[k] == pairs[k]);
        lemma_last_named_is_found(pairs.drop_last(), k, name);
    }
}

/// A run over a store whose categories carry the category name of every
/// product of the catalogue does not stop.
pub proof fn lemma_product_seed_never_stops(
    existing_names: Seq<Seq<char>>,
    categories: Seq<(i64, String)>,
    catalogue: Seq<(Seq<char>, DecimalValue, Seq<char>, Option<i64>)>,
)
    requires
        forall|i: int|
            0 <= i < catalogue.len() ==> exists|m: int|
                0 <= m < categories.len() && categories[m].1@ == (#[trigger] catalogue[i]).2,
    ensures
        product_seed_plan_of(existing_names, categories, catalogue).1 is None,
    decreases catalogue.len(),
{
    if catalogue.len() > 0 {
        let rest = catalogue.drop_last();
        assert forall|i: int| 0 <= i < rest.len() implies exists|m: int|
            0 <= m < categories.len() && categories[m].1@ == (#[trigger] rest[i]).2 by {
            assert(rest[i] == catalogue[i]);
        }
        lemma_product_seed_never_stops(existing_names, categories, rest);
        let last = catalogue[catalogue.len() - 1];
        let m = choose|m: int| 0 <= m < categories.len() && categories[m].1@ == last.2;
        lemma_last_named_is_found(categories, m, last.2);
    }
}

/// Where a category the seed creates goes.
#[derive(Clone, Copy, Debug, PartialEq, Eq, Structural)]
pub enum ParentRef {
    /// At the root.
    Root,
    /// Under a category already in the store, by its id.
    Stored(i64),
    /// Under a category the same run creates, by its place in the plan.
    Planned(usize),
}

/// A category the seed creates: its name and parent, created by the system
/// user with no image.
#[derive(Debug)]
pub struct PlannedCategory {
    pub name: String,
    pub parent: ParentRef,
    pub created_by: i64,
}

/// The categories a run creates, as plain values.
pub open spec fn planned_categories_view(ps: Seq<PlannedCategory>) -> Seq<(Seq<char>, ParentRef)> {
    ps.map_values(|p: PlannedCategory| (p.name@, p.parent))
}

/// The place of the last category called `name` in a plan.
pub open spec fn last_planned(plan: Seq<(Seq<char>, ParentRef)>, name: Seq<char>) -> Option<int>
    decreases plan.len(),
{
    if plan.len() == 0 {
        None
    } else if plan.last().0 == name {
        Some(plan.len() - 1)
    } else {
        last_planned(plan.drop_last(), name)
    }
}

/// What one seed run does with the categories of `catalogue`, in order: a
/// category whose name is in the store is kept; another is created, at the
/// root when it has no parent, else under the first category of its parent's
/// name in the store, else under the one of that name the run created. `None`
/// when a parent is neither, which the seed cannot get past.
pub open spec fn category_seed_plan_of(
    existing: Seq<(i64, String)>,
    catalogue: Seq<(Seq<char>, Option<Seq<char>>)>,
) -> Option<Seq<(Seq<char>, ParentRef)>>
    decreases catalogue.len(),
{
    if catalogue.len() == 0 {
        Some(seq![])
    } else {
        match category_seed_plan_of(existing, catalogue.drop_last()) {
            None => None,
            Some(prev) => {
                let c = catalogue.last();
                if first_id_named(existing, c.0) is Some {
                    Some(prev)
                } else {
                    match c.1 {
                        None => Some(prev.push((c.0, ParentRef::Root))),
                        Some(p) => match first_id_named(existing, p) {
                            Some(pid) => Some(prev.push((c.0, ParentRef::Stored(pid)))),
                            None => match last_planned(prev, p) {
                                Some(k) => Some(prev.push((c.0, ParentRef::Planned(k as usize)))),
                                None => None,
                            },
                        },
                    }
                }
            },
        }
    }
}

/// The place of the last category called `name` in a plan.
fn find_last_planned(plan: &Vec<PlannedCategory>, name: &str) -> (r: Option<usize>)
    ensures
        r matches Some(k) ==> last_planned(planned_categories_view(plan@), name@) == Some(k as int),
        r is None ==> last_planned(planned_categories_view(plan@), name@) is None,
{
    let ghost all = planned_categories_view(plan@);
    let mut i: usize = plan.len();
    assert(all.take(i as int) =~= all);
    while i > 0
        invariant
            i <= plan@.len(),
            all == planned_categories_view(plan@),
            last_planned(all, name@) == last_planned(all.take(i as int), name@),
        decreases i,
    {
        proof {
            assert(all.take(i as int).drop_last() =~= all.take(i - 1));
        }
        if str_eq(plan[i - 1].name.as_str(), name) {
            return Some(i - 1);
        }
        i = i - 1;
    }
    None
}

/// Once a run cannot place a category, the rest of the catalogue does not help.
proof fn lemma_category_plan_stays_none(
    existing: Seq<(i64, String)>,
    catalogue: Seq<(Seq<char>, Option<Seq<char>>)>,
    i: int,
)
    requires
        0 <= i <= catalogue.len(),
        category_seed_plan_of(existing, catalogue.take(i)) is None,
    ensures
        category_seed_plan_of(existing, catalogue) is None,
    decreases catalogue.len() - i,
{
    if i == catalogue.len() {
        assert(catalogue.take(i) =~= catalogue);
    } else {
        assert(catalogue.take(i + 1).drop_last() =~= catalogue.take(i));
        lemma_category_plan_stays_none(existing, catalogue, i + 1);
    }
}

/// What one seed run does with the categories of `catalogue`: those it
/// creates, in catalogue order, each with its parent, created by the system
/// user; `None` when a parent can be placed neither in the store nor in the run.
pub fn seed_category_plan(existing: &Vec<(i64, String)>, catalogue: &Vec<SeedCategory>) -> (r:
    Option<Vec<PlannedCategory>>)
    ensures
        match category_seed_plan_of(existing@, seed_categories_view(catalogue@)) {
            Some(plan) => r matches Some(v) && planned_categories_view(v@) == plan && forall|k: int|
                0 <= k < v@.len() ==> (#[trigger] v@[k]).created_by == SYSTEM_USER_ID,
            None => r is None,
        },
{
    let ghost all = seed_categories_view(catalogue@);
    let mut out: Vec<PlannedCategory> = Vec::new();
    let mut i: usize = 0;
    proof {
        assert(all.take(0) =~= Seq::<(Seq<char>, Option<Seq<char>>)>::empty());
        assert(planned_categories_view(out@) =~= seq![]);
    }
    while i < catalogue.len()
        invariant
            0 <= i <= catalogue.len(),
            all == seed_categories_view(catalogue@),
            category_seed_plan_of(existing@, all.take(i as int)) == Some(
                planned_categories_view(out@),
            ),
            forall|k: int| 0 <= k < out@.len() ==> (#[trigger] out@[k]).created_by == SYSTEM_USER_ID,
        decreases catalogue.len() - i,
    {
        let c = &catalogue[i];
        proof {
            assert(all.take(i + 1).drop_last() =~= all.take(i as int));
            assert(all.take(i + 1).last() == all[i as int]);
        }
        let ghost old_out = out@;
        if let Some(_) = find_id_by_name(existing, c.name.as_str()) {
        } else {
            let parent = match &c.parent {
                None => ParentRef::Root,
                Some(p) => match find_id_by_name(existing, p.as_str()) {
                    Some(pid) => ParentRef::Stored(pid),
                    None => match find_last_planned(&out, p.as_str()) {
                        Some(k) => ParentRef::Planned(k),
                        None => {
                            proof {
                                lemma_category_plan_stays_none(existing@, all, i + 1);
                            }
                            return None;
                        },
                    },
                },
            };
            out.push(
                PlannedCategory {
                    name: string_of(c.name.as_str()),
                    parent,
                    created_by: SYSTEM_USER_ID,
                },
            );
            proof {
                assert(planned_categories_view(out@) =~= planned_categories_view(old_out).push(
                    (c.name@, parent),
                ));
                assert forall|k: int| 0 <= k < out@.len() implies (
                #[trigger] out@[k]).created_by == SYSTEM_USER_ID by {
                    if k < old_out.len() {
                        assert(out@[k] == old_out[k]);
                    }
                }
            }
        }
        i = i + 1;
    }
    proof {
        assert(all.take(catalogue@.len() as int) =~= all);
    }
    Some(out)
}

/// A name that one of the pairs carries is found.
proof fn lemma_named_is_found(pairs: Seq<(i64, String)>, k: int, name: Seq<char>)
    requires
        0 <= k < pairs.len(),
        pairs[k].1@ == name,
    ensures
        first_id_named(pairs, name) is Some,
    decreases pairs.len(),
{
    if pairs[0].1@ != name {
        lemma_named_is_found(pairs.drop_first(), k - 1, name);
    }
}

/// A name that one of the pairs carries is the name of the first pair found.
proof fn lemma_first_named_witness(pairs: Seq<(i64, String)>, name: Seq<char>)
    requires
        first_id_named(pairs, name) is Some,
    ensures
        exists|m: int| 0 <= m < pairs.len() && pairs[m].1@ == name,
    decreases pairs.len(),
{
    if pairs[0].1@ != name {
        lemma_first_named_witness(pairs.drop_first(), name);
        let m = choose|m: int| 0 <= m < pairs.len() - 1 && pairs.drop_first()[m].1@ == name;
        assert(pairs[m + 1] == pairs.drop_first()[m]);
    }
}

/// A category that a plan holds is found by `last_planned`.
proof fn lemma_last_planned_found(plan: Seq<(Seq<char>, ParentRef)>, k: int, name: Seq<char>)
    requires
        0 <= k < plan.len(),
        plan[k].0 == name,
    ensures
        last_planned(plan, name) matches Some(j) && 0 <= j < plan.len(),
    decreases plan.len(),
{
    if plan.last().0 != name {
        assert(plan.drop_last()[k] == plan[k]);
        lemma_last_planned_found(plan.drop_last(), k, name);
    }
}

/// `last_planned` gives a place in the plan.
proof fn lemma_last_planned_in_plan(plan: Seq<(Seq<char>, ParentRef)>, name: Seq<char>)
    ensures
        last_planned(plan, name) matches Some(j) ==> 0 <= j < plan.len(),
    decreases plan.len(),
{
    if plan.len() > 0 && plan.last().0 != name {
        lemma_last_planned_in_plan(plan.drop_last(), name);
    }
}

/// After a run that placed every category, each category of the catalogue
/// is in the store or among those the run created, and a category created
/// under another one the run created comes after it.
pub proof fn lemma_category_plan_covers(
    existing: Seq<(i64, String)>,
    catalogue: Seq<(Seq<char>, Option<Seq<char>>)>,
)
    requires
        category_seed_plan_of(existing, catalogue) is Some,
    ensures
        forall|i: int|
            0 <= i < catalogue.len() ==> first_id_named(existing, (#[trigger] catalogue[i]).0) is Some
                || exists|k: int|
                0 <= k < category_seed_plan_of(existing, catalogue)->0.len()
                    && category_seed_plan_of(existing, catalogue)->0[k].0 == catalogue[i].0,
        forall|j: int|
            0 <= j < category_seed_plan_of(existing, catalogue)->0.len() ==> ((
            #[trigger] category_seed_plan_of(existing, catalogue)->0[j]).1 matches ParentRef::Planned(
                k,
            ) ==> k < j),
    decreases catalogue.len(),
{
    if catalogue.len() > 0 {
        let rest = catalogue.drop_last();
        lemma_category_plan_covers(existing, rest);
        let prev = category_seed_plan_of(existing, rest)->0;
        let plan = category_seed_plan_of(existing, catalogue)->0;
        let c = catalogue.last();
        if plan != prev {
            let x = plan.last();
            assert(plan =~= prev.push(x));
            if let Some(p) = c.1 {
                lemma_last_planned_in_plan(prev, p);
            }
        }
        assert forall|i: int| 0 <= i < catalogue.len() implies first_id_named(
            existing,
            (#[trigger] catalogue[i]).0,
        ) is Some || exists|k: int| 0 <= k < plan.len() && plan[k].0 == catalogue[i].0 by {
            if i < rest.len() {
                assert(rest[i] == catalogue[i]);
                if first_id_named(existing, catalogue[i].0) is None {
                    let k = choose|k: int| 0 <= k < prev.len() && prev[k].0 == rest[i].0;
                    assert(plan[k] == prev[k]);
                }
            } else if first_id_named(existing, c.0) is None {
                assert(plan[plan.len() - 1].0 == catalogue[i].0);
            }
        }
        assert forall|j: int| 0 <= j < plan.len() implies ((#[trigger] plan[j]).1 matches ParentRef::Planned(
            k,
        ) ==> k < j) by {
            if j < prev.len() {
                assert(plan[j] == prev[j]);
            }
        }
    }
}

/// A catalogue in which every category comes after its parent is always
/// placed whole: the run never lacks a parent.
pub proof fn lemma_category_plan_complete(
    existing: Seq<(i64, String)>,
    catalogue: Seq<(Seq<char>, Option<Seq<char>>)>,
)
    requires
        forall|i: int|
            0 <= i < catalogue.len() ==> match #[trigger] catalogue[i].1 {
                Some(p) => exists|j: int| 0 <= j < i && catalogue[j].0 == p,
                None => true,
            },
    ensures
        category_seed_plan_of(existing, catalogue) is Some,
    decreases catalogue.len(),
{
    if catalogue.len() > 0 {
        let rest = catalogue.drop_last();
        assert forall|i: int| 0 <= i < rest.len() implies match #[trigger] rest[i].1 {
            Some(p) => exists|j: int| 0 <= j < i && rest[j].0 == p,
            None => true,
        } by {
            assert(rest[i] == catalogue[i]);
            if let Some(p) = catalogue[i].1 {
                let j = choose|j: int| 0 <= j < i && catalogue[j].0 == p;
                assert(rest[j] == catalogue[j]);
            }
        }
        lemma_category_plan_complete(existing, rest);
        lemma_category_plan_covers(existing, rest);
        let prev = category_seed_plan_of(existing, rest)->0;
        let last = catalogue.len() - 1;
        if let Some(p) = catalogue[last].1 {
            let j = choose|j: int| 0 <= j < last && catalogue[j].0 == p;
            assert(rest[j] == catalogue[j]);
            if first_id_named(existing, p) is None {
                let k = choose|k: int| 0 <= k < prev.len() && prev[k].0 == rest[j].0;
                lemma_last_planned_found(prev, k, p);
            }
        }
    }
}

/// The seed's own catalogue is always placed whole, whatever the store holds.
pub proof fn lemma_seed_category_plan_complete(existing: Seq<(i64, String)>)
    ensures
        category_seed_plan_of(existing, seed_category_list()) is Some,
{
    lemma_seed_parents_come_first();
    lemma_category_plan_complete(existing, seed_category_list());
}

/// A run over a store that holds every category of the catalogue creates nothing.
proof fn lemma_category_plan_all_present(
    existing: Seq<(i64, String)>,
    catalogue: Seq<(Seq<char>, Option<Seq<char>>)>,
)
    requires
        forall|i: int|
            0 <= i < catalogue.len() ==> first_id_named(existing, (#[trigger] catalogue[i]).0) is Some,
    ensures
        category_seed_plan_of(existing, catalogue) == Some(Seq::<(Seq<char>, ParentRef)>::empty()),
    decreases catalogue.len(),
{
    if catalogue.len() > 0 {
        let rest = catalogue.drop_last();
        assert forall|i: int| 0 <= i < rest.len() implies first_id_named(
            existing,
            (#[trigger] rest[i]).0,
        ) is Some by {
            assert(rest[i] == catalogue[i]);
        }
        lemma_category_plan_all_present(existing, rest);
        assert(first_id_named(existing, catalogue[catalogue.len() - 1].0) is Some);
    }
}

/// Seeding the categories twice creates them once: a second run over a store
/// that holds the categories the first run found and those it created
/// creates nothing.
pub proof fn lemma_category_seed_rerun_creates_nothing(
    existing: Seq<(i64, String)>,
    catalogue: Seq<(Seq<char>, Option<Seq<char>>)>,
    existing_after: Seq<(i64, String)>,
)
    requires
        category_seed_plan_of(existing, catalogue) is Some,
        forall|j: int|
            0 <= j < existing.len() ==> exists|m: int|
                0 <= m < existing_after.len() && existing_after[m].1@ == (#[trigger] existing[j]).1@,
        forall|k: int|
            0 <= k < category_seed_plan_of(existing, catalogue)->0.len() ==> exists|m: int|
                0 <= m < existing_after.len() && existing_after[m].1@ == (
                #[trigger] category_seed_plan_of(existing, catalogue)->0[k]).0,
    ensures
        category_seed_plan_of(existing_after, catalogue) == Some(
            Seq::<(Seq<char>, ParentRef)>::empty(),
        ),
{
    let plan = category_seed_plan_of(existing, catalogue)->0;
    lemma_category_plan_covers(existing, catalogue);
    assert forall|i: int| 0 <= i < catalogue.len() implies first_id_named(
        existing_after,
        (#[trigger] catalogue[i]).0,
    ) is Some by {
        let n = catalogue[i].0;
        if first_id_named(existing, n) is Some {
            lemma_first_named_witness(existing, n);
            let j = choose|j: int| 0 <= j < existing.len() && existing[j].1@ == n;
            let m = choose|m: int|
                0 <= m < existing_after.len() && existing_after[m].1@ == existing[j].1@;
            lemma_named_is_found(existing_after, m, n);
        } else {
            let k = choose|k: int| 0 <= k < plan.len() && plan[k].0 == n;
            let m = choose|m: int| 0 <= m < existing_after.len() && existing_after[m].1@ == plan[k].0;
            lemma_named_is_found(existing_after, m, n);
        }
    }
    lemma_category_plan_all_present(existing_after, catalogue);
}

/// The seed creates each product of its catalogue with the price, the
/// category and the initial stock the seed program names for it: "MacBook
/// Air M2" at 1199.99 in "Ноутбуки" with 5 in stock, and so on.
pub proof fn lemma_seed_product_entries()
    ensures
        seed_product_list().len() == 13,
        seed_product_list()[0] == ("iPhone 15 Pro"@, DecimalValue { mantissa: 129999, scale: 2 }, "iOS"@, Some(10i64)),
        seed_product_list()[1] == ("Samsung Galaxy S24"@, DecimalValue { mantissa: 99999, scale: 2 }, "Android"@, Some(15i64)),
        seed_product_list()[2] == ("AirPods Pro"@, DecimalValue { mantissa: 24999, scale: 2 }, "Наушники"@, Some(30i64)),
        seed_product_list()[3] == ("MacBook Air M2"@, DecimalValue { mantissa: 119999, scale: 2 }, "Ноутбуки"@, Some(5i64)),
        seed_product_list()[4] == ("Мастер и Маргарита"@, DecimalValue { mantissa: 1599, scale: 2 }, "Художественная литература"@, Some(100i64)),
        seed_product_list()[5] == ("Алгоритмы. Построение и анализ"@, DecimalValue { mantissa: 65, scale: 0 }, "Научная литература"@, Some(40i64)),
        seed_product_list()[6] == ("Гарри Поттер и философский камень"@, DecimalValue { mantissa: 185, scale: 1 }, "Детские книги"@, Some(80i64)),
        seed_product_list()[7] == ("Футболка хлопковая (M, белая)"@, DecimalValue { mantissa: 1999, scale: 2 }, "Футболки"@, Some(50i64)),
        seed_product_list()[8] == ("Джинсы классические (32, синие)"@, DecimalValue { mantissa: 7999, scale: 2 }, "Джинсы"@, Some(25i64)),
        seed_product_list()[9] == ("Светодиодный светильник потолочный"@, DecimalValue { mantissa: 45, scale: 0 }, "Освещение"@, Some(20i64)),
        seed_product_list()[10] == ("Лопата садовая стальная"@, DecimalValue { mantissa: 2999, scale: 2 }, "Садовый инвентарь"@, Some(15i64)),
        seed_product_list()[11] == ("Гантели 5 кг (пара)"@, DecimalValue { mantissa: 3999, scale: 2 }, "Фитнес"@, Some(12i64)),
        seed_product_list()[12] == ("Палатка туристическая 2-местная"@, DecimalValue { mantissa: 19999, scale: 2 }, "Туризм"@, Some(8i64)),
{
}

/// The seed creates each category of its catalogue under the parent the seed
/// program names for it: the five roots first, then "Смартфоны", "Ноутбуки"
/// and "Наушники" under "Электроника", and so on.
pub proof fn lemma_seed_category_entries()
    ensures
        seed_category_list().len() == 23,
        seed_category_list()[0] == ("Электроника"@, None::<Seq<char>>),
        seed_category_list()[1] == ("Книги"@, None::<Seq<char>>),
        seed_category_list()[2] == ("Одежда и обувь"@, None::<Seq<char>>),
        seed_category_list()[3] == ("Дом и сад"@, None::<Seq<char>>),
        seed_category_list()[4] == ("Спорт и отдых"@, None::<Seq<char>>),
        seed_category_list()[5] == ("Смартфоны"@, Some("Электроника"@)),
        seed_category_list()[6] == ("Ноутбуки"@, Some("Электроника"@)),
        seed_category_list()[7] == ("Наушники"@, Some("Электроника"@)),
        seed_category_list()[8] == ("Android"@, Some("Смартфоны"@)),
        seed_category_list()[9] == ("iOS"@, Some("Смартфоны"@)),
        seed_category_list()[10] == ("Художественная литература"@, Some("Книги"@)),
        seed_category_list()[11] == ("Научная литература"@, Some("Книги"@)),
        seed_category_list()[12] == ("Детские книги"@, Some("Книги"@)),
        seed_category_list()[13] == ("Мужская одежда"@, Some("Одежда и обувь"@)),
        seed_category_list()[14] == ("Женская одежда"@, Some("Одежда и обувь"@)),
        seed_category_list()[15] == ("Обувь"@, Some("Одежда и обувь"@)),
        seed_category_list()[16] == ("Футболки"@, Some("Мужская одежда"@)),
        seed_category_list()[17] == ("Джинсы"@, Some("Мужская одежда"@)),
        seed_category_list()[18] == ("Мебель"@, Some("Дом и сад"@)),
        seed_category_list()[19] == ("Освещение"@, Some("Дом и сад"@)),
        seed_category_list()[20] == ("Садовый инвентарь"@, Some("Дом и сад"@)),
        seed_category_list()[21] == ("Фитнес"@, Some("Спорт и отдых"@)),
        seed_category_list()[22] == ("Туризм"@, Some("Спорт и отдых"@)),
{
}

} // verus!
