use eloquent::Eloquent;

#[test]
fn test_select_single_column() {
    let result = Eloquent::query().table("flights").select("origin");

    assert_eq!(result.sql().unwrap(), "SELECT origin FROM flights");
}

#[test]
fn test_select_multiple_columns() {
    let result = Eloquent::query()
        .table("flights")
        .select(vec!["origin", "destination"]);

    assert_eq!(
        result.sql().unwrap(),
        "SELECT origin, destination FROM flights"
    );
}

#[test]
fn test_select_as() {
    let result = Eloquent::query()
        .table("flights")
        .select_as("origin", "from")
        .select_as("destination", "to");

    assert_eq!(
        result.sql().unwrap(),
        "SELECT origin AS from, destination AS to FROM flights"
    );
}

#[test]
fn test_select_raw() {
    let result = Eloquent::query()
        .table("flights")
        .select_raw("flight_duration * ? as delay_in_min", vec![5]);

    assert_eq!(
        result.sql().unwrap(),
        "SELECT flight_duration * 5 as delay_in_min FROM flights"
    );
}

#[test]
fn test_select_raw_multiple() {
    let result = Eloquent::query().table("flights").select_raw(
        "flight_duration * ? as delay_in_min, delay_in_min * ? as delay_in_hr",
        vec![5, 60],
    );

    assert_eq!(
        result.sql().unwrap(),
        "SELECT flight_duration * 5 as delay_in_min, delay_in_min * 60 as delay_in_hr FROM flights"
    );
}

#[test]
fn test_select_count() {
    let result = Eloquent::query()
        .table("flights")
        .select_count("id", "id_count");

    assert_eq!(
        result.sql().unwrap(),
        "SELECT COUNT(id) AS id_count FROM flights"
    );
}

#[test]
fn test_select_min() {
    let result = Eloquent::query()
        .table("flights")
        .select_min("flight_duration", "flight_duration_min");

    assert_eq!(
        result.sql().unwrap(),
        "SELECT MIN(flight_duration) AS flight_duration_min FROM flights"
    );
}

#[test]
fn test_select_max() {
    let result = Eloquent::query()
        .table("flights")
        .select_max("flight_duration", "flight_duration_max");

    assert_eq!(
        result.sql().unwrap(),
        "SELECT MAX(flight_duration) AS flight_duration_max FROM flights"
    );
}

#[test]
fn test_select_avg() {
    let result = Eloquent::query()
        .table("flights")
        .select_avg("flight_duration", "flight_duration_avg");

    assert_eq!(
        result.sql().unwrap(),
        "SELECT AVG(flight_duration) AS flight_duration_avg FROM flights"
    );
}

#[test]
fn test_select_sum() {
    let result = Eloquent::query()
        .table("flights")
        .select_sum("flight_duration", "flight_duration_sum");

    assert_eq!(
        result.sql().unwrap(),
        "SELECT SUM(flight_duration) AS flight_duration_sum FROM flights"
    );
}

#[test]
fn test_select_distinct() {
    let result = Eloquent::query().table("flights").select_distinct("origin");

    assert_eq!(result.sql().unwrap(), "SELECT DISTINCT origin FROM flights");
}

#[test]
fn test_insert() {
    let result = Eloquent::query()
        .table("flights")
        .insert("origin_airport", "AMS")
        .insert("destination_airport", "FRA");

    assert_eq!(
        result.sql().unwrap(),
        "INSERT INTO flights (origin_airport, destination_airport) VALUES ('AMS', 'FRA')"
    );
}

#[test]
fn test_insert_with_condition() {
    let result = Eloquent::query()
        .table("flights")
        .insert("origin_airport", "AMS")
        .insert("destination_airport", "FRA");

    assert_eq!(
        result.sql().unwrap(),
        "INSERT INTO flights (origin_airport, destination_airport) VALUES ('AMS', 'FRA')"
    );
}

#[test]
fn test_update() {
    let result = Eloquent::query()
        .table("flights")
        .update("origin_airport", "AMS")
        .update("destination_airport", "FRA");

    assert_eq!(
        result.sql().unwrap(),
        "UPDATE flights SET origin_airport = 'AMS', destination_airport = 'FRA'"
    );
}

#[test]
fn test_update_with_condition() {
    let result = Eloquent::query()
        .table("flights")
        .update("origin_airport", "AMS")
        .update("destination_airport", "FRA")
        .where_eq("id", 1);

    assert_eq!(
        result.sql().unwrap(),
        "UPDATE flights SET origin_airport = 'AMS', destination_airport = 'FRA' WHERE id = 1"
    );
}

#[test]
fn test_delete() {
    let result = Eloquent::query().table("flights").delete();

    assert_eq!(result.sql().unwrap(), "DELETE FROM flights");
}

#[test]
fn test_delete_with_condition() {
    let result = Eloquent::query()
        .table("flights")
        .where_eq("origin", "AMS")
        .delete();

    assert_eq!(
        result.sql().unwrap(),
        "DELETE FROM flights WHERE origin = 'AMS'"
    );
}

#[test]
fn test_group_by() {
    let result = Eloquent::query()
        .table("flights")
        .select("origin")
        .select_avg("flight_duration", "flight_duration_avg")
        .group_by("origin");

    assert_eq!(
        result.sql().unwrap(),
        "SELECT origin, AVG(flight_duration) AS flight_duration_avg FROM flights GROUP BY origin"
    );
}

#[test]
fn test_group_by_multiple() {
    let result = Eloquent::query()
        .table("flights")
        .select(vec!["origin", "destination"])
        .select_avg("flight_duration", "flight_duration_avg")
        .group_by(vec!["origin", "destination"]);

    assert_eq!(
        result.sql().unwrap(),
        "SELECT origin, destination, AVG(flight_duration) AS flight_duration_avg FROM flights GROUP BY origin, destination"
    );
}

#[test]
fn test_order_by_asc() {
    let result = Eloquent::query().table("flights").order_by_asc("origin");

    assert_eq!(
        result.sql().unwrap(),
        "SELECT * FROM flights ORDER BY origin ASC"
    );
}

#[test]
fn test_order_by_desc() {
    let result = Eloquent::query().table("flights").order_by_desc("origin");

    assert_eq!(
        result.sql().unwrap(),
        "SELECT * FROM flights ORDER BY origin DESC"
    );
}

#[test]
fn test_order_by_multiple() {
    let result = Eloquent::query()
        .table("flights")
        .order_by_asc("origin")
        .order_by_desc("destination");

    assert_eq!(
        result.sql().unwrap(),
        "SELECT * FROM flights ORDER BY origin ASC, destination DESC"
    );
}

#[test]
fn test_limit() {
    let result = Eloquent::query().table("flights").limit(10);

    assert_eq!(result.sql().unwrap(), "SELECT * FROM flights LIMIT 10");
}

#[test]
fn test_offset() {
    let result = Eloquent::query().table("flights").offset(10);

    assert_eq!(result.sql().unwrap(), "SELECT * FROM flights OFFSET 10");
}
