use eloquent::{Eloquent, EloquentError};

#[test]
fn test_having() {
    let result = Eloquent::query()
        .table("flights")
        .select("flights.origin_airport")
        .select_as("AVG(flights.flight_duration)", "avg_duration")
        .join("airports", "flights.origin_airport", "airports.code")
        .group_by("flights.origin_airport")
        .having("avg_duration", 300);

    assert_eq!(
        result.sql().unwrap(),
        "SELECT flights.origin_airport, AVG(flights.flight_duration) AS avg_duration FROM flights JOIN airports ON flights.origin_airport = airports.code GROUP BY flights.origin_airport HAVING avg_duration = 300"
    );
}

#[test]
fn test_having_not() {
    let result = Eloquent::query()
        .table("flights")
        .select("flights.origin_airport")
        .select_as("AVG(flights.flight_duration)", "avg_duration")
        .join("airports", "flights.origin_airport", "airports.code")
        .group_by("flights.origin_airport")
        .having_not("avg_duration", 300);

    assert_eq!(
        result.sql().unwrap(),
        "SELECT flights.origin_airport, AVG(flights.flight_duration) AS avg_duration FROM flights JOIN airports ON flights.origin_airport = airports.code GROUP BY flights.origin_airport HAVING avg_duration != 300"
    );
}

#[test]
fn test_having_gt() {
    let result = Eloquent::query()
        .table("flights")
        .select("flights.origin_airport")
        .select_as("AVG(flights.flight_duration)", "avg_duration")
        .join("airports", "flights.origin_airport", "airports.code")
        .group_by("flights.origin_airport")
        .having_gt("avg_duration", 300);

    assert_eq!(
        result.sql().unwrap(),
        "SELECT flights.origin_airport, AVG(flights.flight_duration) AS avg_duration FROM flights JOIN airports ON flights.origin_airport = airports.code GROUP BY flights.origin_airport HAVING avg_duration > 300"
    );
}

#[test]
fn test_having_gte() {
    let result = Eloquent::query()
        .table("flights")
        .select("flights.origin_airport")
        .select_as("AVG(flights.flight_duration)", "avg_duration")
        .join("airports", "flights.origin_airport", "airports.code")
        .group_by("flights.origin_airport")
        .having_gte("avg_duration", 300);

    assert_eq!(
        result.sql().unwrap(),
        "SELECT flights.origin_airport, AVG(flights.flight_duration) AS avg_duration FROM flights JOIN airports ON flights.origin_airport = airports.code GROUP BY flights.origin_airport HAVING avg_duration >= 300"
    );
}

#[test]
fn test_having_lt() {
    let result = Eloquent::query()
        .table("flights")
        .select("flights.origin_airport")
        .select_as("AVG(flights.flight_duration)", "avg_duration")
        .join("airports", "flights.origin_airport", "airports.code")
        .group_by("flights.origin_airport")
        .having_lt("avg_duration", 300);

    assert_eq!(
        result.sql().unwrap(),
        "SELECT flights.origin_airport, AVG(flights.flight_duration) AS avg_duration FROM flights JOIN airports ON flights.origin_airport = airports.code GROUP BY flights.origin_airport HAVING avg_duration < 300"
    );
}

#[test]
fn test_having_lte() {
    let result = Eloquent::query()
        .table("flights")
        .select("flights.origin_airport")
        .select_as("AVG(flights.flight_duration)", "avg_duration")
        .join("airports", "flights.origin_airport", "airports.code")
        .group_by("flights.origin_airport")
        .having_lte("avg_duration", 300);

    assert_eq!(
        result.sql().unwrap(),
        "SELECT flights.origin_airport, AVG(flights.flight_duration) AS avg_duration FROM flights JOIN airports ON flights.origin_airport = airports.code GROUP BY flights.origin_airport HAVING avg_duration <= 300"
    );
}

#[test]
fn test_missing_table() {
    let result = Eloquent::query().sql();

    match result {
        Err(EloquentError::MissingTable) => (),
        Err(_error) => panic!(),
        Ok(_value) => panic!(),
    }
}

#[test]
fn test_duplicated_column_names() {
    let result = Eloquent::query()
        .table("flights")
        .select("origin")
        .select("origin")
        .sql();

    match result {
        Err(EloquentError::DuplicatedColumnNames(column)) => assert_eq!(column, "origin"),
        Err(_error) => panic!(),
        Ok(_value) => panic!(),
    }
}

#[test]
fn test_having_clause_without_aggregate_function() {
    let result = Eloquent::query()
        .table("flights")
        .having("origin", 300)
        .sql();

    match result {
        Err(EloquentError::HavingClauseWithoutAggregateFunction(column)) => {
            assert_eq!(column, "origin")
        }
        Err(_error) => panic!(),
        Ok(_value) => panic!(),
    }
}

#[test]
fn test_group_by_without_selected_or_aggregate_function() {
    let result = Eloquent::query().table("flights").group_by("origin").sql();

    match result {
        Err(EloquentError::GroupByWithNonSelectedOrAggregateFunction(column)) => {
            assert_eq!(column, "origin")
        }
        Err(_error) => panic!(),
        Ok(_value) => panic!(),
    }
}

#[test]
fn test_order_by_without_selected_or_aggregate_function() {
    let result = Eloquent::query()
        .table("flights")
        .select("destination")
        .order_by_asc("origin")
        .sql();

    match result {
        Err(EloquentError::OrderByWithNonSelectedOrAggregateFunction(column)) => {
            assert_eq!(column, "origin")
        }
        Err(_error) => panic!(),
        Ok(_value) => panic!(),
    }
}

#[test]
fn test_missing_placeholder() {
    let result = Eloquent::query()
        .select_raw(
            "flight_duration * ? as delay_in_min, delay_in_min * ? as delay_in_hr",
            vec![5],
        )
        .table("flights")
        .sql();

    match result {
        Err(EloquentError::MissingPlaceholders) => (),
        Err(_error) => panic!(),
        Ok(_value) => panic!(),
    }
}

#[test]
fn test_skip_validation() {
    let result = Eloquent::query().table("flights").skip_validation().sql();

    assert_eq!(result.unwrap(), "SELECT * FROM flights");
}

#[test]
fn test_cannot_apply_clause_on_insert() {
    let result = Eloquent::query()
        .table("flights")
        .insert("origin_airport", "AMS")
        .where_eq("origin_airport", "FRA")
        .sql();

    match result {
        Err(EloquentError::CannotApplyClauseOnInsert(clause)) => {
            assert_eq!(clause, "WHERE")
        }
        Err(_error) => panic!(),
        Ok(_value) => panic!(),
    }
}

#[test]
fn test_cannot_apply_clause_on_update() {
    let result = Eloquent::query()
        .table("flights")
        .join("airports", "flights.origin_airport", "airports.code")
        .update("origin_airport", "AMS")
        .sql();

    match result {
        Err(EloquentError::CannotApplyClauseOnUpdate(clause)) => {
            assert_eq!(clause, "JOIN")
        }
        Err(_error) => panic!(),
        Ok(_value) => panic!(),
    }
}

#[test]
fn test_cannot_apply_clause_on_delete() {
    let result = Eloquent::query()
        .table("flights")
        .join("airports", "flights.origin_airport", "airports.code")
        .delete()
        .sql();

    match result {
        Err(EloquentError::CannotApplyClauseOnDelete(clause)) => {
            assert_eq!(clause, "JOIN")
        }
        Err(_error) => panic!(),
        Ok(_value) => panic!(),
    }
}

#[test]
fn test_select_subquery() {
    let subquery = Eloquent::subquery()
        .table("flights")
        .select_avg("duration_in_min", "avg_duration_in_min");

    let result = Eloquent::query()
        .table("flights")
        .select_as(subquery, "avg_duration");

    assert_eq!(
        result.sql().unwrap(),
        "SELECT (SELECT AVG(duration_in_min) AS avg_duration_in_min FROM flights) AS avg_duration FROM flights"
    );
}

#[test]
fn test_where_subquery() {
    let subquery = Eloquent::subquery()
        .table("flights")
        .select_max("duration_in_min", "max_duration_in_min");

    let result = Eloquent::query().table("flights").where_eq("id", subquery);

    assert_eq!(
        result.sql().unwrap(),
        "SELECT * FROM flights WHERE id = (SELECT MAX(duration_in_min) AS max_duration_in_min FROM flights)"
    );
}

#[test]
fn test_where_in_subquery() {
    let subquery = Eloquent::subquery()
        .table("flights")
        .select("id")
        .where_gt("duration_in_min", 120);

    let result = Eloquent::query()
        .table("flights")
        .where_in("id", vec![subquery]);

    assert_eq!(
        result.sql().unwrap(),
        "SELECT * FROM flights WHERE id IN (SELECT id FROM flights WHERE duration_in_min > 120)"
    );
}

#[test]
fn test_where_not_in_subquery() {
    let subquery = Eloquent::subquery()
        .table("flights")
        .select("id")
        .where_gt("duration_in_min", 120);

    let result = Eloquent::query()
        .table("flights")
        .where_not_in("id", vec![subquery]);

    assert_eq!(
        result.sql().unwrap(),
        "SELECT * FROM flights WHERE id NOT IN (SELECT id FROM flights WHERE duration_in_min > 120)"
    );
}
