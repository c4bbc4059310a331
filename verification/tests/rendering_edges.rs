use eloquent::{Action, Eloquent};

#[test]
fn test_example_or_group() {
    let result = Eloquent::query()
        .table("flights")
        .select("origin")
        .where_gt("flight_duration", 120)
        .or_where_closure(|q| q.where_like("city", "%NY%"));

    assert_eq!(
        result.sql().unwrap(),
        "SELECT origin FROM flights WHERE flight_duration > 120 OR (city LIKE '%NY%')"
    );
}

#[test]
fn test_example_not_in_numbers() {
    let result = Eloquent::query()
        .table("flights")
        .where_not_in("id", vec![1, 2]);

    assert_eq!(
        result.sql().unwrap(),
        "SELECT * FROM flights WHERE id NOT IN (1, 2)"
    );
}

#[test]
fn test_nested_groups() {
    let result = Eloquent::query()
        .table("flights")
        .where_eq("origin", "AMS")
        .where_closure(|q| {
            q.where_gt("flight_duration", 120)
                .or_where_closure(|inner| inner.where_eq("gate", 1).where_eq("terminal", 2))
        });

    assert_eq!(
        result.sql().unwrap(),
        "SELECT * FROM flights WHERE origin = 'AMS' AND (flight_duration > 120 OR (gate = 1 AND terminal = 2))"
    );
}

#[test]
fn test_where_negative_number() {
    let result = Eloquent::query()
        .table("flights")
        .where_lt("temperature", -25);

    assert_eq!(
        result.sql().unwrap(),
        "SELECT * FROM flights WHERE temperature < -25"
    );
}

#[test]
fn test_where_bool_value() {
    let result = Eloquent::query()
        .table("flights")
        .where_eq("cancelled", true)
        .or_where("boarded", false);

    assert_eq!(
        result.sql().unwrap(),
        "SELECT * FROM flights WHERE cancelled = true OR boarded = false"
    );
}

#[test]
fn test_where_in_empty_list() {
    let values: Vec<i32> = Vec::new();
    let result = Eloquent::query().table("flights").where_in("id", values);

    assert_eq!(result.sql().unwrap(), "SELECT * FROM flights WHERE id IN ()");
}

#[test]
fn test_where_not_like_clause() {
    let result = Eloquent::query()
        .table("flights")
        .where_not_like("airplane_type", "Airbus%");

    assert_eq!(
        result.sql().unwrap(),
        "SELECT * FROM flights WHERE airplane_type NOT LIKE 'Airbus%'"
    );
}

#[test]
fn test_select_raw_without_placeholders() {
    let values: Vec<i32> = Vec::new();
    let result = Eloquent::query()
        .table("flights")
        .select_raw("flight_duration * 60 as delay", values);

    assert_eq!(
        result.sql().unwrap(),
        "SELECT flight_duration * 60 as delay FROM flights"
    );
}

#[test]
fn test_get_action_kinds() {
    assert_eq!(Eloquent::query().get_action(), Action::Select);
    assert_eq!(
        Eloquent::query().select("origin").get_action(),
        Action::Select
    );
    assert_eq!(
        Eloquent::query().insert("origin", "AMS").get_action(),
        Action::Insert
    );
    assert_eq!(
        Eloquent::query().update("origin", "AMS").get_action(),
        Action::Update
    );
    assert_eq!(Eloquent::query().delete().get_action(), Action::Delete);
}

#[test]
fn test_compile_twice_identical() {
    let first = Eloquent::query()
        .table("flights")
        .select("origin")
        .where_gt("flight_duration", 120)
        .sql()
        .unwrap();
    let second = Eloquent::query()
        .table("flights")
        .select("origin")
        .where_gt("flight_duration", 120)
        .sql()
        .unwrap();

    assert_eq!(first, second);
}

#[test]
fn test_table_last_write_wins() {
    let result = Eloquent::query().table("airports").table("flights");

    assert_eq!(result.sql().unwrap(), "SELECT * FROM flights");
}

#[test]
fn test_limit_and_offset_together() {
    let result = Eloquent::query().table("flights").limit(20).offset(40);

    assert_eq!(
        result.sql().unwrap(),
        "SELECT * FROM flights LIMIT 20 OFFSET 40"
    );
}

#[test]
fn test_limit_largest_value() {
    let result = Eloquent::query().table("flights").limit(u64::MAX);

    assert_eq!(
        result.sql().unwrap(),
        "SELECT * FROM flights LIMIT 18446744073709551615"
    );
}

#[test]
fn test_where_smallest_number() {
    let result = Eloquent::query().table("flights").where_eq("delta", i64::MIN);

    assert_eq!(
        result.sql().unwrap(),
        "SELECT * FROM flights WHERE delta = -9223372036854775808"
    );
}

#[test]
fn test_pretty_sql_reformats() {
    let result = Eloquent::query()
        .table("flights")
        .select("origin")
        .pretty_sql()
        .unwrap();

    assert_eq!(result, "SELECT\n    origin\nFROM\n    flights");
}

#[test]
fn test_pretty_sql_uppercases_keywords() {
    let pretty = Eloquent::query()
        .table("flights")
        .where_eq("origin", "AMS")
        .pretty_sql()
        .unwrap();
    let plain = Eloquent::query()
        .table("flights")
        .where_eq("origin", "AMS")
        .sql()
        .unwrap();

    assert_ne!(pretty, plain);
    assert!(pretty.contains("WHERE"));
    assert!(pretty.contains("origin = 'AMS'"));
}
