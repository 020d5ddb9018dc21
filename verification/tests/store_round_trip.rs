use dex_arb::evaluator::EvalParams;
use dex_arb::tick::{process_tick, TickAction};
use rusqlite::Connection;

/// A record written to the store and read back keeps its buy venue, sell
/// venue and profit, and its timestamp stays parsable.
#[test]
fn written_record_reads_back_identical() {
    let params = EvalParams { gas_cost_raw: 20_000, min_profit_raw: 10_000 };
    let fetch_a = Some(vec![2_000_000u128]);
    let fetch_b = Some(vec![1_950_000u128]);
    let rec = match process_tick(&fetch_a, &fetch_b, &params) {
        TickAction::Persist(rec) => rec,
        TickAction::Skip(reason) => panic!("expected a record, got skip: {:?}", reason),
    };
    let profit_usdc = rec.profit_raw as f64 / 1e6;

    let con = Connection::open_in_memory().unwrap();
    con.execute(
        "CREATE TABLE IF NOT EXISTS arbitrage_opportunities (
            id INTEGER PRIMARY KEY AUTOINCREMENT,
            buy_dex TEXT,
            sell_dex TEXT,
            profit_usdc REAL,
            timestamp TEXT
        )",
        (),
    )
    .unwrap();
    con.execute(
        "INSERT INTO arbitrage_opportunities (buy_dex, sell_dex, profit_usdc, timestamp) \
         VALUES (?1, ?2, ?3, ?4)",
        (&rec.buy_dex, &rec.sell_dex, &profit_usdc, &rec.timestamp),
    )
    .unwrap();

    let (id, buy, sell, profit, ts): (i64, String, String, f64, String) = con
        .query_row(
            "SELECT id, buy_dex, sell_dex, profit_usdc, timestamp \
             FROM arbitrage_opportunities",
            (),
            |row| {
                Ok((row.get(0)?, row.get(1)?, row.get(2)?, row.get(3)?, row.get(4)?))
            },
        )
        .unwrap();

    assert_eq!(id, 1);
    assert_eq!(buy, rec.buy_dex);
    assert_eq!(sell, rec.sell_dex);
    assert!((profit - profit_usdc).abs() < 1e-9);
    assert_eq!(ts, rec.timestamp);
    assert!(chrono::DateTime::parse_from_rfc3339(&ts).is_ok());
}
