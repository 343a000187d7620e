use backend_rust::bootstrap::find_id_by_name;
use backend_rust::seed::{
    product_seed_action, seed_categories, seed_category_plan, seed_product_plan,
    seed_products, ParentRef, SeedAction, SeedCategory, SeedProductKind,
};
use backend_rust::values::DecimalValue;

#[test]
fn catalogue_categories_come_after_their_parents() {
    let cats = seed_categories();
    assert_eq!(cats.len(), 23);
    assert_eq!(cats[0].name, "Электроника");
    assert!(cats[0].parent.is_none());
    let mut created: Vec<(i64, String)> = Vec::new();
    for (i, c) in cats.iter().enumerate() {
        if let Some(p) = &c.parent {
            assert!(find_id_by_name(&created, p).is_some(), "{}", c.name);
        }
        created.push((i as i64, c.name.clone()));
    }
}

#[test]
fn catalogue_products_have_known_categories() {
    let cats = seed_categories();
    let products = seed_products();
    assert_eq!(products.len(), 13);
    assert_eq!(products[0].name, "iPhone 15 Pro");
    assert_eq!(
        products[0].base_price,
        DecimalValue {
            mantissa: 129999,
            scale: 2
        }
    );
    assert_eq!(products[0].initial_stock, Some(10));
    for p in &products {
        assert!(cats.iter().any(|c| c.name == p.category), "{}", p.name);
    }
}

#[test]
fn product_actions() {
    let products = seed_products();
    let iphone = &products[0];
    let categories = vec![
        (7, "iOS".to_string()),
        (8, "Android".to_string()),
        (9, "iOS".to_string()),
    ];
    assert!(matches!(
        product_seed_action(&vec!["iPhone 15 Pro".to_string()], &categories, iphone),
        Some(SeedAction::Skip)
    ));
    match product_seed_action(&vec![], &categories, iphone) {
        Some(SeedAction::Create(p)) => {
            assert_eq!(p.name, "iPhone 15 Pro");
            assert_eq!(p.category_id, 9);
            assert_eq!(p.base_price, iphone.base_price);
            assert_eq!(p.kind, SeedProductKind::Item);
            assert_eq!(p.provider_name, "internal");
            assert_eq!(p.created_by, 1);
            assert_eq!(p.initial_stock, Some(10));
        }
        _ => panic!("expected a creation"),
    }
    assert!(product_seed_action(&vec![], &vec![], iphone).is_none());
}

#[test]
fn category_plan_follows_the_catalogue() {
    let cats = seed_categories();
    let existing = vec![(40, "Книги".to_string())];
    let plan = seed_category_plan(&existing, &cats).unwrap();
    assert_eq!(plan.len(), 22);
    assert!(plan.iter().all(|p| p.created_by == 1));
    assert!(plan.iter().all(|p| p.name != "Книги"));
    assert_eq!(plan[0].name, "Электроника");
    assert_eq!(plan[0].parent, ParentRef::Root);
    let at = |name: &str| plan.iter().position(|p| p.name == name).unwrap();
    // "Детские книги" goes under the stored "Книги".
    assert_eq!(plan[at("Детские книги")].parent, ParentRef::Stored(40));
    // "Android" goes under the "Смартфоны" the same run creates.
    assert_eq!(plan[at("Android")].parent, ParentRef::Planned(at("Смартфоны")));
    assert_eq!(plan[at("Футболки")].parent, ParentRef::Planned(at("Мужская одежда")));
    for (j, p) in plan.iter().enumerate() {
        if let ParentRef::Planned(k) = p.parent {
            assert!(k < j);
        }
    }
}

#[test]
fn category_plan_on_an_empty_store_creates_the_whole_catalogue() {
    let cats = seed_categories();
    let plan = seed_category_plan(&vec![], &cats).unwrap();
    assert_eq!(plan.len(), 23);
    let roots = plan.iter().filter(|p| p.parent == ParentRef::Root).count();
    assert_eq!(roots, 5);
}

#[test]
fn category_plan_second_run_creates_nothing() {
    let cats = seed_categories();
    let existing = vec![(40, "Книги".to_string())];
    let plan = seed_category_plan(&existing, &cats).unwrap();
    let mut after = existing.clone();
    for (k, p) in plan.iter().enumerate() {
        after.push((100 + k as i64, p.name.clone()));
    }
    assert_eq!(seed_category_plan(&after, &cats).unwrap().len(), 0);
}

#[test]
fn category_plan_without_a_parent_fails() {
    let orphan = vec![SeedCategory {
        name: "Android".to_string(),
        parent: Some("Смартфоны".to_string()),
    }];
    assert!(seed_category_plan(&vec![], &orphan).is_none());
    let plan = seed_category_plan(&vec![(3, "Смартфоны".to_string())], &orphan).unwrap();
    assert_eq!(plan.len(), 1);
    assert_eq!(plan[0].parent, ParentRef::Stored(3));
}

fn seeded_category_ids() -> Vec<(i64, String)> {
    [
        "iOS",
        "Android",
        "Наушники",
        "Ноутбуки",
        "Художественная литература",
        "Научная литература",
        "Детские книги",
        "Футболки",
        "Джинсы",
        "Освещение",
        "Садовый инвентарь",
        "Фитнес",
        "Туризм",
    ]
    .iter()
    .enumerate()
    .map(|(i, n)| (i as i64 + 1, n.to_string()))
    .collect()
}

#[test]
fn product_plan_skips_stored_names() {
    let products = seed_products();
    let plan = seed_product_plan(
        &vec!["iPhone 15 Pro".to_string()],
        &seeded_category_ids(),
        &products,
    );
    assert!(plan.missing_category.is_none());
    assert_eq!(plan.create.len(), 12);
    assert!(plan.create.iter().all(|p| p.name != "iPhone 15 Pro"));
    let first = &plan.create[0];
    assert_eq!(first.name, "Samsung Galaxy S24");
    assert_eq!(first.category_id, 2);
    assert_eq!(first.initial_stock, Some(15));
    assert_eq!(first.kind, SeedProductKind::Item);
    assert_eq!(first.provider_name, "internal");
    assert_eq!(first.created_by, 1);
    assert_eq!(plan.create[11].name, "Палатка туристическая 2-местная");
    assert_eq!(plan.create[11].category_id, 13);
}

#[test]
fn product_plan_second_run_creates_nothing() {
    let products = seed_products();
    let first = seed_product_plan(&vec![], &seeded_category_ids(), &products);
    assert_eq!(first.create.len(), 13);
    let names: Vec<String> = first.create.iter().map(|p| p.name.clone()).collect();
    let second = seed_product_plan(&names, &seeded_category_ids(), &products);
    assert!(second.create.is_empty());
    assert!(second.missing_category.is_none());
}

#[test]
fn product_plan_stops_at_a_missing_category() {
    let products = seed_products();
    let only_ios = vec![(5, "iOS".to_string())];
    let plan = seed_product_plan(&vec![], &only_ios, &products);
    assert_eq!(plan.create.len(), 1);
    assert_eq!(plan.create[0].name, "iPhone 15 Pro");
    assert_eq!(plan.create[0].category_id, 5);
    assert_eq!(plan.missing_category, Some("Android".to_string()));
}
