use function_types::collatz;

#[test]
fn collatz_halves_even_numbers() {
    assert_eq!(collatz(0), 0);
    assert_eq!(collatz(2), 1);
    assert_eq!(collatz(42), 21);
    assert_eq!(collatz(64), 32);
    assert_eq!(collatz(1000), 500);
}

#[test]
fn collatz_triples_odd_numbers_and_adds_one() {
    assert_eq!(collatz(1), 4);
    assert_eq!(collatz(3), 10);
    assert_eq!(collatz(7), 22);
    assert_eq!(collatz(21), 64);
    assert_eq!(collatz(999), 2998);
}

#[test]
fn collatz_of_the_largest_even_number() {
    assert_eq!(usize::MAX % 2, 1);
    assert_eq!(collatz(usize::MAX - 1), usize::MAX / 2);
}

#[test]
fn collatz_of_the_largest_odd_number_that_fits() {
    let bound = (usize::MAX - 1) / 3;
    let n = if bound % 2 == 1 { bound } else { bound - 1 };
    assert_eq!(n % 2, 1);
    let r = collatz(n);
    assert_eq!(r - 1, 3 * n);
    assert_eq!((r - 1) / 3, n);
    assert!(usize::MAX - r < 6);
}

#[test]
fn collatz_reaches_one_from_twenty_seven() {
    let mut n: usize = 27;
    let mut steps: usize = 0;
    let mut peak: usize = n;
    while n != 1 {
        n = collatz(n);
        steps += 1;
        if n > peak {
            peak = n;
        }
    }
    assert_eq!(steps, 111);
    assert_eq!(peak, 9232);
}
