use binance::config::Config;
use binance::errors::CloseFrame;
use binance::errors::Error;
use binance::json::Json;
use binance::model::Decimal;
use binance::session::join;
use binance::session::payload;
use binance::session::take_turn;
use binance::session::Frame;
use binance::session::Incoming;
use binance::session::SessionState;
use binance::session::Turn;
use binance::websockets::decode;
use binance::websockets::event_of;
use binance::websockets::WebSockets;
use binance::websockets::WebsocketAPI;
use binance::websockets::WebsocketEvent;

const TRADE: &str = r#"{"e":"trade","E":123456789,"s":"BNBBTC","t":12345,"p":"0.001","q":"100","b":88,"a":50,"T":123456785,"m":true,"M":true}"#;
const AGG_TRADE: &str = r#"{"e":"aggTrade","E":123456789,"s":"BNBBTC","a":12345,"p":"0.001","q":"100","f":100,"l":105,"T":123456785,"m":true,"M":true}"#;
const DAY_TICKER: &str = r#"{"e":"24hrTicker","E":123456789,"s":"BNBBTC","p":"0.0015","P":"250.00","w":"0.0018","x":"0.0009","c":"0.0025","Q":"10","b":"0.0024","B":"10","a":"0.0026","A":"100","o":"0.0010","h":"0.0025","l":"0.0010","v":"10000","q":"18","O":0,"C":86400000,"F":0,"L":18150,"n":18151}"#;
const KLINE: &str = r#"{"e":"kline","E":123456789,"s":"BNBBTC","k":{"t":123400000,"T":123460000,"s":"BNBBTC","i":"1m","f":100,"L":200,"o":"0.0010","c":"0.0020","h":"0.0025","l":"0.0015","v":"1000","n":100,"x":false,"q":"1.0000","V":"500","Q":"0.500","B":"123456"}}"#;
const DEPTH: &str = r#"{"e":"depthUpdate","E":123456789,"s":"BNBBTC","U":157,"u":160,"b":[["0.0024","10"]],"a":[["0.0026","100"],["0.0027","0"]]}"#;
const BOOK_TICKER: &str = r#"{"u":400900217,"s":"BNBUSDT","b":"25.35190000","B":"31.21000000","a":"25.36520000","A":"40.66000000"}"#;
const ORDER_BOOK: &str = r#"{"lastUpdateId":160,"bids":[["0.0024","10"]],"asks":[["0.0026","100"]]}"#;
const EXECUTION_REPORT: &str = r#"{"e":"executionReport","E":1499405658658,"s":"ETHBTC","c":"mUvoqJxFIILMdfAW5iGSOW","S":"BUY","o":"LIMIT","f":"GTC","q":"1.00000000","p":"0.10264410","P":"0.00000000","F":"0.00000000","g":-1,"C":null,"x":"NEW","X":"NEW","r":"NONE","i":4293153,"l":"0.00000000","z":"0.00000000","L":"0.00000000","n":"0","N":null,"T":1499405658657,"t":-1,"I":8641984,"w":true,"m":false,"M":false,"O":1499405658657,"Z":"0.00000000","Y":"0.00000000","Q":"0.00000000"}"#;
const BALANCE_UPDATE: &str = r#"{"e":"outboundAccountPosition","E":1564034571105,"u":1564034571073,"B":[{"a":"ETH","wb":"10000.000000","cw":"0.000000","bc":"1.5"}]}"#;
const ACCOUNT_UPDATE: &str = r#"{"e":"ACCOUNT_UPDATE","E":1564745798939,"T":1564745798938,"a":{"m":"ORDER","B":[{"a":"USDT","wb":"122624.12345678","cw":"100.12345678","bc":"50.12345678"}],"P":[{"s":"BTCUSDT","pa":"0","ep":"0.00000","cr":"200","up":"0","mt":"isolated","iw":"0.00000000","ps":"BOTH"}]}}"#;

fn handled(text: &str) -> WebsocketEvent {
    WebSockets::handle_msg(text).unwrap()
}

fn open_session() -> WebSockets {
    let mut session = WebSockets::connect("bnbbtc@trade").unwrap();
    session.opened();
    session
}

#[test]
fn trade_event() {
    match handled(TRADE) {
        WebsocketEvent::Trade(e) => {
            assert_eq!(e.event_type, "trade");
            assert_eq!(e.event_time, 123456789);
            assert_eq!(e.symbol, "BNBBTC");
            assert_eq!(e.trade_id, 12345);
            assert_eq!(e.price, "0.001");
            assert_eq!(e.qty, "100");
            assert_eq!(e.buyer_order_id, 88);
            assert_eq!(e.seller_order_id, 50);
            assert_eq!(e.trade_order_time, 123456785);
            assert!(e.is_buyer_maker);
            assert!(!e.m_ignore);
        }
        other => panic!("{other:?}"),
    }
}

#[test]
fn aggregated_trade_event() {
    match handled(AGG_TRADE) {
        WebsocketEvent::AggrTrades(e) => {
            assert_eq!(e.event_type, "aggTrade");
            assert_eq!(e.aggregated_trade_id, 12345);
            assert_eq!(e.price, Decimal { mantissa: 1, scale: 3 });
            assert_eq!(e.qty, Decimal { mantissa: 100, scale: 0 });
            assert_eq!(e.first_break_trade_id, 100);
            assert_eq!(e.last_break_trade_id, 105);
            assert_eq!(e.trade_order_time, 123456785);
            assert!(e.is_buyer_maker);
            assert!(!e.m_ignore);
        }
        other => panic!("{other:?}"),
    }
}

#[test]
fn day_ticker_event() {
    match handled(DAY_TICKER) {
        WebsocketEvent::DayTicker(e) => {
            assert_eq!(e.event_type, "24hrTicker");
            assert_eq!(e.symbol, "BNBBTC");
            assert_eq!(e.price_change, "0.0015");
            assert_eq!(e.price_change_percent, "250.00");
            assert_eq!(e.average_price, "0.0018");
            assert_eq!(e.prev_close, "0.0009");
            assert_eq!(e.current_close, "0.0025");
            assert_eq!(e.current_close_qty, "10");
            assert_eq!(e.best_bid, "0.0024");
            assert_eq!(e.best_bid_qty, "10");
            assert_eq!(e.best_ask, "0.0026");
            assert_eq!(e.best_ask_qty, "100");
            assert_eq!(e.open, "0.0010");
            assert_eq!(e.high, "0.0025");
            assert_eq!(e.low, "0.0010");
            assert_eq!(e.volume, "10000");
            assert_eq!(e.quote_volume, "18");
            assert_eq!(e.open_time, 0);
            assert_eq!(e.close_time, 86400000);
            assert_eq!(e.first_trade_id, 0);
            assert_eq!(e.last_trade_id, 18150);
            assert_eq!(e.num_trades, 18151);
        }
        other => panic!("{other:?}"),
    }
}

#[test]
fn all_day_tickers_event() {
    let text = format!("[{DAY_TICKER},{DAY_TICKER}]");
    match handled(&text) {
        WebsocketEvent::DayTickerAll(all) => {
            assert_eq!(all.len(), 2);
            assert_eq!(all[1].num_trades, 18151);
        }
        other => panic!("{other:?}"),
    }
    assert_eq!(handled("[]"), WebsocketEvent::DayTickerAll(vec![]));
}

#[test]
fn kline_event() {
    match handled(KLINE) {
        WebsocketEvent::Kline(e) => {
            assert_eq!(e.event_type, "kline");
            assert_eq!(e.symbol, "BNBBTC");
            assert_eq!(e.kline.open_time, 123400000);
            assert_eq!(e.kline.close_time, 123460000);
            assert_eq!(e.kline.symbol, "BNBBTC");
            assert_eq!(e.kline.interval, "1m");
            assert_eq!(e.kline.first_trade_id, 100);
            assert_eq!(e.kline.last_trade_id, 200);
            assert_eq!(e.kline.open, "0.0010");
            assert_eq!(e.kline.close, "0.0020");
            assert_eq!(e.kline.high, "0.0025");
            assert_eq!(e.kline.low, "0.0015");
            assert_eq!(e.kline.volume, "1000");
            assert_eq!(e.kline.number_of_trades, 100);
            assert!(!e.kline.is_final_bar);
            assert_eq!(e.kline.quote_asset_volume, "1.0000");
            assert_eq!(e.kline.taker_buy_base_asset_volume, "500");
            assert_eq!(e.kline.taker_buy_quote_asset_volume, "0.500");
            assert_eq!(e.kline.ignore_me, "");
        }
        other => panic!("{other:?}"),
    }
}

#[test]
fn depth_event() {
    match handled(DEPTH) {
        WebsocketEvent::DepthOrderBook(e) => {
            assert_eq!(e.event_type, "depthUpdate");
            assert_eq!(e.first_update_id, 157);
            assert_eq!(e.final_update_id, 160);
            assert_eq!(e.previous_final_update_id, None);
            assert_eq!(e.bids.len(), 1);
            assert_eq!(e.bids[0].price, Decimal { mantissa: 24, scale: 4 });
            assert_eq!(e.bids[0].qty, Decimal { mantissa: 10, scale: 0 });
            assert_eq!(e.asks.len(), 2);
            assert_eq!(e.asks[1].price, Decimal { mantissa: 27, scale: 4 });
            assert_eq!(e.asks[1].qty, Decimal { mantissa: 0, scale: 0 });
        }
        other => panic!("{other:?}"),
    }
}

#[test]
fn book_ticker_event() {
    match handled(BOOK_TICKER) {
        WebsocketEvent::BookTicker(e) => {
            assert_eq!(e.update_id, 400900217);
            assert_eq!(e.symbol, "BNBUSDT");
            assert_eq!(e.best_bid, "25.35190000");
            assert_eq!(e.best_bid_qty, "31.21000000");
            assert_eq!(e.best_ask, "25.36520000");
            assert_eq!(e.best_ask_qty, "40.66000000");
        }
        other => panic!("{other:?}"),
    }
}

#[test]
fn order_book_event() {
    match handled(ORDER_BOOK) {
        WebsocketEvent::OrderBook(e) => {
            assert_eq!(e.last_update_id, 160);
            assert_eq!(e.bids[0].price, Decimal { mantissa: 24, scale: 4 });
            assert_eq!(e.asks[0].qty, Decimal { mantissa: 100, scale: 0 });
        }
        other => panic!("{other:?}"),
    }
}

#[test]
fn order_trade_event() {
    match handled(EXECUTION_REPORT) {
        WebsocketEvent::OrderTrade(e) => {
            assert_eq!(e.event_type, "executionReport");
            assert_eq!(e.event_time, 1499405658658);
            assert_eq!(e.symbol, "ETHBTC");
            assert_eq!(e.new_client_order_id, "mUvoqJxFIILMdfAW5iGSOW");
            assert_eq!(e.side, "BUY");
            assert_eq!(e.order_type, "LIMIT");
            assert_eq!(e.time_in_force, "GTC");
            assert_eq!(e.qty, "1.00000000");
            assert_eq!(e.price, "0.10264410");
            assert_eq!(e.execution_type, "NEW");
            assert_eq!(e.order_status, "NEW");
            assert_eq!(e.order_reject_reason, "NONE");
            assert_eq!(e.order_id, 4293153);
            assert_eq!(e.qty_last_filled_trade, "0.00000000");
            assert_eq!(e.accumulated_qty_filled_trades, "0.00000000");
            assert_eq!(e.price_last_filled_trade, "0.00000000");
            assert_eq!(e.commission, "0");
            assert_eq!(e.trade_order_time, 1499405658657);
            assert_eq!(e.trade_id, -1);
            assert!(!e.is_buyer_maker);
            assert_eq!(e.p_ignore, "");
            assert_eq!(e.f_ignore, "");
            assert_eq!(e.g, 0);
            assert_eq!(e.c_ignore, None);
            assert_eq!(e.asset_commisioned, None);
            assert_eq!(e.i_ignore, 0);
            assert!(!e.w);
            assert!(!e.m_ignore);
        }
        other => panic!("{other:?}"),
    }
}

#[test]
fn balance_update_event() {
    match handled(BALANCE_UPDATE) {
        WebsocketEvent::BalanceUpdate(e) => {
            assert_eq!(e.event_type, "outboundAccountPosition");
            assert_eq!(e.event_time, 1564034571105);
            assert_eq!(e.last_account_update_time, 1564034571073);
            assert_eq!(e.balance.len(), 1);
            assert_eq!(e.balance[0].asset, "ETH");
            assert_eq!(e.balance[0].wallet_balance, "10000.000000");
            assert_eq!(e.balance[0].cross_wallet_balance, "0.000000");
            assert_eq!(e.balance[0].balance_change, "1.5");
        }
        other => panic!("{other:?}"),
    }
}

#[test]
fn account_update_event() {
    match handled(ACCOUNT_UPDATE) {
        WebsocketEvent::AccountUpdate(e) => {
            assert_eq!(e.event_type, "ACCOUNT_UPDATE");
            assert_eq!(e.event_time, 1564745798939);
            assert_eq!(e.data.reason, "ORDER");
            assert_eq!(e.data.balances[0].asset, "USDT");
            assert_eq!(e.data.positions[0].symbol, "BTCUSDT");
            assert_eq!(e.data.positions[0].position_side, "BOTH");
        }
        other => panic!("{other:?}"),
    }
}

#[test]
fn an_envelope_decodes_as_its_payload() {
    for inner in [TRADE, AGG_TRADE, DAY_TICKER, KLINE, DEPTH, BOOK_TICKER, ORDER_BOOK, EXECUTION_REPORT, BALANCE_UPDATE, ACCOUNT_UPDATE] {
        let wrapped = format!("{{\"stream\":\"x\",\"data\":{inner}}}");
        assert_eq!(handled(&wrapped), handled(inner));
    }
    let tickers = format!("[{DAY_TICKER}]");
    let wrapped = format!("{{\"stream\":\"!ticker@arr\",\"data\":{tickers}}}");
    assert_eq!(handled(&wrapped), handled(&tickers));
}

#[test]
fn envelopes_are_opened_four_deep() {
    let mut text = TRADE.to_string();
    for _ in 0..4 {
        text = format!("{{\"data\":{text}}}");
    }
    assert_eq!(handled(&text), handled(TRADE));
    let deeper = format!("{{\"data\":{text}}}");
    assert_eq!(
        WebSockets::handle_msg(&deeper),
        Err(Error::UnrecognizedEvent(deeper.clone()))
    );
    let document = Json::parse(&deeper).unwrap();
    assert!(payload(&document).is_none());
    let shallow = Json::parse(TRADE).unwrap();
    assert!(payload(&shallow).is_some());
}

#[test]
fn an_unknown_payload_is_not_recognized() {
    for text in ["{\"foo\":1}", "{}", "1", "null", "\"trade\"", "[1]", "{\"e\":\"x\"}", "{\"data\":{\"foo\":1}}"] {
        assert_eq!(
            WebSockets::handle_msg(text),
            Err(Error::UnrecognizedEvent(text.to_string()))
        );
    }
    assert!(event_of(&Json::parse("{\"foo\":1}").unwrap()).is_none());
    assert_eq!(
        decode(&Json::parse("{}").unwrap(), "raw"),
        Err(Error::UnrecognizedEvent("raw".into()))
    );
}

#[test]
fn a_text_that_is_no_json_fails_to_decode() {
    assert_eq!(WebSockets::handle_msg("{"), Err(Error::Decode));
    assert_eq!(WebSockets::handle_msg(""), Err(Error::Decode));
    assert_eq!(WebSockets::handle_msg("{} x"), Err(Error::Decode));
}

#[test]
fn a_member_of_the_wrong_type_spoils_the_form() {
    let text = TRADE.replace("\"t\":12345", "\"t\":\"12345\"");
    assert_eq!(WebSockets::handle_msg(&text), Err(Error::UnrecognizedEvent(text.clone())));
    let negative = TRADE.replace("\"t\":12345", "\"t\":-1");
    assert!(WebSockets::handle_msg(&negative).is_err());
    let broken_price = AGG_TRADE.replace("\"p\":\"0.001\"", "\"p\":\"abc\"");
    assert!(WebSockets::handle_msg(&broken_price).is_err());
}

#[test]
fn the_first_form_wins() {
    // A document with the members of a trade and of an aggregated trade.
    let both = r#"{"e":"x","E":1,"s":"S","t":2,"p":"1","q":"2","b":3,"a":4,"T":5,"m":false,"f":6,"l":7}"#;
    assert!(matches!(handled(both), WebsocketEvent::AggrTrades(_)));
}

#[test]
fn ping_is_answered_with_its_payload() {
    let mut session = open_session();
    let step = session.recv(Incoming::Frame(Frame::Ping(vec![1, 2, 3])));
    assert_eq!(step.reply, Some(Frame::Pong(vec![1, 2, 3])));
    assert_eq!(step.outcome, Ok(None));
    assert_eq!(session.current_state(), SessionState::Open);
    let empty = session.recv(Incoming::Frame(Frame::Ping(vec![])));
    assert_eq!(empty.reply, Some(Frame::Pong(vec![])));
    assert_eq!(empty.outcome, Ok(None));
}

#[test]
fn other_control_frames_yield_nothing() {
    let mut session = open_session();
    for frame in [Frame::Pong(vec![1]), Frame::Binary(vec![0xff]), Frame::Raw] {
        let step = session.recv(Incoming::Frame(frame));
        assert_eq!(step.reply, None);
        assert_eq!(step.outcome, Ok(None));
        assert_eq!(session.current_state(), SessionState::Open);
    }
}

#[test]
fn a_text_frame_yields_its_event() {
    let mut session = open_session();
    let step = session.recv(Incoming::Frame(Frame::Text(TRADE.into())));
    assert_eq!(step.reply, None);
    assert_eq!(step.outcome, Ok(Some(handled(TRADE))));
    let unknown = session.recv(Incoming::Frame(Frame::Text("{}".into())));
    assert_eq!(unknown.outcome, Err(Error::UnrecognizedEvent("{}".into())));
    assert_eq!(session.current_state(), SessionState::Open);
}

#[test]
fn a_close_frame_ends_the_session() {
    let mut session = open_session();
    let said = Some(CloseFrame { code: 1000, reason: "bye".into() });
    let step = session.recv(Incoming::Frame(Frame::Close(said.clone())));
    assert_eq!(step.reply, None);
    assert_eq!(step.outcome, Err(Error::Disconnected(said)));
    assert_eq!(session.current_state(), SessionState::Closed);
    let after = session.recv(Incoming::Frame(Frame::Ping(vec![1])));
    assert_eq!(after.reply, None);
    assert_eq!(after.outcome, Err(Error::ConnectionClosed));
    assert_eq!(session.current_state(), SessionState::Closed);
}

#[test]
fn a_failed_read_and_the_end_of_the_stream_end_the_session() {
    let mut session = open_session();
    let step = session.recv(Incoming::Failed("reset".into()));
    assert_eq!(step.outcome, Err(Error::Transport("reset".into())));
    assert_eq!(session.current_state(), SessionState::Closed);
    let mut other = open_session();
    let end = other.recv(Incoming::End);
    assert_eq!(end.outcome, Err(Error::ConnectionClosed));
    assert_eq!(end.reply, None);
    assert_eq!(other.current_state(), SessionState::Closed);
}

#[test]
fn a_session_that_is_not_open_reads_nothing() {
    let mut session = WebSockets::connect("bnbbtc@trade").unwrap();
    assert_eq!(session.current_state(), SessionState::Connecting);
    let step = session.recv(Incoming::Frame(Frame::Text(TRADE.into())));
    assert_eq!(step.outcome, Err(Error::ConnectionClosed));
    assert_eq!(session.current_state(), SessionState::Connecting);
}

#[test]
fn disconnect_sends_a_close_frame_once() {
    let mut session = open_session();
    assert_eq!(session.disconnect(), Some(Frame::Close(None)));
    assert_eq!(session.current_state(), SessionState::Closing);
    assert_eq!(session.disconnect(), None);
    let step = session.recv(Incoming::Frame(Frame::Text(TRADE.into())));
    assert!(matches!(step.outcome, Ok(Some(WebsocketEvent::Trade(_)))));
    let closed = session.recv(Incoming::Frame(Frame::Close(None)));
    assert_eq!(closed.outcome, Err(Error::Disconnected(None)));
    assert_eq!(session.current_state(), SessionState::Closed);
}

#[test]
fn a_failed_handshake_closes_the_session() {
    let mut session = WebSockets::connect("bnbbtc@trade").unwrap();
    assert_eq!(session.handshake_failed("refused".into()), Error::Handshake("refused".into()));
    assert_eq!(session.current_state(), SessionState::Closed);
    session.opened();
    assert_eq!(session.current_state(), SessionState::Closed);
}

#[test]
fn turns_of_a_session() {
    assert_eq!(
        take_turn(SessionState::Open, Incoming::Frame(Frame::Ping(vec![7]))),
        (SessionState::Open, Turn::Idle(Some(Frame::Pong(vec![7]))))
    );
    assert_eq!(
        take_turn(SessionState::Closing, Incoming::Frame(Frame::Text("x".into()))),
        (SessionState::Closing, Turn::Decode("x".into()))
    );
    assert_eq!(
        take_turn(SessionState::Closed, Incoming::End),
        (SessionState::Closed, Turn::Fail(Error::ConnectionClosed))
    );
}

#[test]
fn addresses_of_streams() {
    assert_eq!(
        WebsocketAPI::Default.params("bnbbtc@trade"),
        "wss://stream.binance.com:9443/ws/bnbbtc@trade"
    );
    assert_eq!(
        WebsocketAPI::MultiStream.params("a/b"),
        "wss://stream.binance.com:9443/stream?streams=a/b"
    );
    assert_eq!(
        WebsocketAPI::Custom("wss://host/ws".into()).params("a"),
        "wss://host/ws/a"
    );
    assert_eq!(
        WebSockets::connect("bnbbtc@trade").unwrap().address(),
        "wss://stream.binance.com:9443/ws/bnbbtc@trade"
    );
    let streams = vec!["bnbbtc@trade".to_string(), "ethbtc@depth".to_string()];
    assert_eq!(
        WebSockets::connect_multiple_streams(&streams).unwrap().address(),
        "wss://stream.binance.com:9443/stream?streams=bnbbtc@trade/ethbtc@depth"
    );
    let config = Config::default().set_ws_endpoint("wss://testnet.binance.vision/ws".into());
    assert_eq!(
        WebSockets::connect_with_config("bnbbtc@trade", &config).unwrap().address(),
        "wss://testnet.binance.vision/ws/bnbbtc@trade"
    );
}

#[test]
fn an_address_that_is_no_url_is_refused() {
    assert_eq!(
        WebSockets::connect_wss("not a url".into()),
        Err(Error::InvalidUrl("not a url".into()))
    );
    let config = Config::default().set_ws_endpoint("".into());
    assert_eq!(
        WebSockets::connect_with_config("x", &config),
        Err(Error::InvalidUrl("/x".into()))
    );
    assert!(WebSockets::connect_wss("wss://stream.binance.com:9443/ws/x".into()).is_ok());
}

#[test]
fn joining_streams() {
    assert_eq!(join(&[], "/"), "");
    assert_eq!(join(&["a".to_string()], "/"), "a");
    assert_eq!(join(&["a".to_string(), "".to_string(), "c".to_string()], "/"), "a//c");
}
