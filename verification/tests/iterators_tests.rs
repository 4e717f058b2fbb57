use snippets::iterators::closure_adapter;
use snippets::iterators::consumer_adapter;
use snippets::iterators::iterator_adapter;
use snippets::iterators::Counter;
use snippets::iterators::Shoe;

#[test]
fn test_count() {
    let mut counter = Counter::new();
    assert_eq!(counter.next(), Some(1));
    assert_eq!(counter.next(), Some(2));
    assert_eq!(counter.next(), Some(3));
    assert_eq!(counter.next(), Some(4));
    assert_eq!(counter.next(), Some(5));

    let mut first: Vec<u32> = Vec::new();
    let mut c1 = Counter::new();
    while let Some(v) = c1.next() {
        first.push(v);
    }
    let mut second: Vec<u32> = Vec::new();
    let mut c2 = Counter::new();
    while let Some(v) = c2.next() {
        second.push(v);
    }
    let sum: u32 = first
        .iter()
        .zip(second.iter().skip(1))
        .map(|(a, b)| a * b)
        .filter(|x| x % 3 == 0)
        .sum();
    assert_eq!(18, sum);
}

#[test]
fn enumerate_adapter() {
    let v = vec![1u64, 2, 3, 4, 5, 6];

    for (i, v) in v.iter().enumerate() {
        println!("the {} is {}", i, v);
    }

    let v2 = vec![1u64, 2, 3, 4, 5, 6];
    let val = v2
        .iter()
        .enumerate()
        .filter(|(idx, _)| idx % 2 == 0)
        .map(|(_idx, val)| val)
        .fold(0u64, |sum, acm| sum + acm);
    println!("{}", val);
    assert_eq!(val, 9);
}

#[test]
fn counter_stops_after_five() {
    let mut counter = Counter::new();
    for _ in 0..5 {
        assert!(counter.next().is_some());
    }
    assert_eq!(counter.next(), None);
    assert_eq!(counter.next(), None);
}

#[test]
fn map_add_one_image() {
    iterator_adapter();
}

#[test]
fn summing_consumes_to_six() {
    consumer_adapter();
}

#[test]
fn shoes_filtered_by_size() {
    let shoes = vec![
        Shoe { size: 10, style: String::from("sneaker") },
        Shoe { size: 13, style: String::from("sandal") },
        Shoe { size: 10, style: String::from("boot") },
    ];
    let kept = closure_adapter(shoes, 10);
    assert_eq!(kept.len(), 2);
    assert_eq!(kept[0].size, 10);
    assert_eq!(kept[0].style, "sneaker");
    assert_eq!(kept[1].size, 10);
    assert_eq!(kept[1].style, "boot");
}

#[test]
fn shoes_filtered_none_match() {
    let shoes = vec![Shoe { size: 7, style: String::from("loafer") }];
    let kept = closure_adapter(shoes, 10);
    assert_eq!(kept.len(), 0);
}
