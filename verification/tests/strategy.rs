use graphene_decode::decode::decode_float;
use graphene_decode::model::Order;
use graphene_decode::model::Strategy;
use graphene_decode::parse::is_overlapping_strategy;
use graphene_decode::parse::parse_strategy;

#[test]
fn decode_float_test() {
    let float = decode_float(("3562339608471328").parse::<u64>().unwrap()).unwrap();
    assert_eq!(float.to_string(), String::from("756284981016395776"))
}

#[test]
fn test_parse_strategy_and_get_spread_ppm_mock1() {
    let strategy = Strategy {
        id: String::from("340282366920938463463374607431768211534"),
        owner: String::from("0xC5597Eb414B65F4e905Af8f45Ff95E2e22D1E4b0"),
        token0: String::from("0x4200000000000000000000000000000000000006"),
        token1: String::from("0x833589fCD6eDb6E08f4c7C32D4f71b54bdA02913"),
        order0: Order {
            y: "443317550496385".parse::<u128>().unwrap(),
            z: "870293078344329".parse::<u128>().unwrap(),
            a: "3544951559321984".parse::<u64>().unwrap(),
            b: "4381635731557859".parse::<u64>().unwrap(),
        },
        order1: Order {
            y: "1020804".parse::<u128>().unwrap(),
            z: "2218082".parse::<u128>().unwrap(),
            a: "1751224833".parse::<u64>().unwrap(),
            b: "13361396492".parse::<u64>().unwrap(),
        },
    };

    let strategy = parse_strategy(strategy, [18, 6]).unwrap();

    assert_eq!(strategy.spread_ppm, "0.60");
    assert_eq!(is_overlapping_strategy(&strategy).unwrap(), true);
}

#[test]
fn test_parse_strategy_and_get_spread_ppm_mock2() {
    let strategy = Strategy {
        id: String::from("6465364971497830805804117541203596017740"),
        owner: String::from("0x2998166a1c40f91617a343071af67183df37f43d"),
        token0: String::from("0xd386a121991e51eab5e3433bf5b1cf4c8884b47a"),
        token1: String::from("0x833589fcd6edb6e08f4c7c32d4f71b54bda02913"),
        order0: Order {
            y: "2419891880285895608".parse::<u128>().unwrap(),
            z: "12965995751316401403".parse::<u128>().unwrap(),
            a: "6367105957745619".parse::<u64>().unwrap(),
            b: "6404666349060909".parse::<u64>().unwrap(),
        },
        order1: Order {
            y: "500000".parse::<u128>().unwrap(),
            z: "709135".parse::<u128>().unwrap(),
            a: "40123691".parse::<u64>().unwrap(),
            b: "48752896".parse::<u64>().unwrap(),
        },
    };

    let strategy = parse_strategy(strategy, [18, 6]).unwrap();

    assert_eq!(strategy.spread_ppm, "0.30");
    assert_eq!(is_overlapping_strategy(&strategy).unwrap(), true);
}

#[test]
fn test_parse_strategy_and_get_spread_ppm_mock3() {
    let strategy = Strategy {
        id: String::from("1020847100762815390390123822295304634374"),
        owner: String::from("0x069e85D4F1010DD961897dC8C095FBB5FF297434"),
        token0: String::from("0xd386a121991e51eab5e3433bf5b1cf4c8884b47a"),
        token1: String::from("0x4200000000000000000000000000000000000006"),
        order0: Order {
            y: "5272165526976235778".parse::<u128>().unwrap(),
            z: "5272165526976235778".parse::<u128>().unwrap(),
            a: "137699263369260".parse::<u64>().unwrap(),
            b: "785475461108442".parse::<u64>().unwrap(),
        },
        order1: Order {
            y: "0".parse::<u128>().unwrap(),
            z: "20000000000000000".parse::<u128>().unwrap(),
            a: "15495486182908".parse::<u64>().unwrap(),
            b: "68947006830288".parse::<u64>().unwrap(),
        },
    };

    let strategy = parse_strategy(strategy, [18, 18]).unwrap();

    assert_eq!(strategy.spread_ppm, "11.11");
    assert_eq!(is_overlapping_strategy(&strategy).unwrap(), true);
}
