//! The dynamic layer's step counter and its Fibonacci regulation term.

use vstd::prelude::*;

verus! {

/// The Fibonacci sequence as the model uses it, shifted to start at 1, 1:
/// term 0 is 1, term 1 is 1, term 2 is 2, term 3 is 3, term 4 is 5, ...
pub open spec fn fib(n: nat) -> nat
    decreases n,
{
    if n <= 1 {
        1
    } else {
        fib((n - 1) as nat) + fib((n - 2) as nat)
    }
}

/// A pair of adjacent Fibonacci terms, defined by a linear recursion so
/// that concrete values can be computed without exponential blowup.
spec fn fib_pair(n: nat) -> (nat, nat)
    decreases n,
{
    if n == 0 {
        (1, 1)
    } else {
        let p = fib_pair((n - 1) as nat);
        (p.1, p.0 + p.1)
    }
}

proof fn lemma_fib_pair(n: nat)
    ensures
        fib_pair(n) == (fib(n), fib(n + 1)),
    decreases n,
{
    if n > 0 {
        lemma_fib_pair((n - 1) as nat);
    }
}

pub proof fn lemma_fib_monotonic(i: nat, j: nat)
    requires
        i <= j,
    ensures
        fib(i) <= fib(j),
    decreases j,
{
    if i < j && j > 1 {
        lemma_fib_monotonic(i, (j - 1) as nat);
    }
}

proof fn lemma_fib_pair_to_23()
    ensures
        fib_pair(23) == (46368nat, 75025nat),
{
    assert(fib_pair(0) == (1nat, 1nat));
    assert(fib_pair(1) == (1nat, 2nat));
    assert(fib_pair(2) == (2nat, 3nat));
    assert(fib_pair(3) == (3nat, 5nat));
    assert(fib_pair(4) == (5nat, 8nat));
    assert(fib_pair(5) == (8nat, 13nat));
    assert(fib_pair(6) == (13nat, 21nat));
    assert(fib_pair(7) == (21nat, 34nat));
    assert(fib_pair(8) == (34nat, 55nat));
    assert(fib_pair(9) == (55nat, 89nat));
    assert(fib_pair(10) == (89nat, 144nat));
    assert(fib_pair(11) == (144nat, 233nat));
    assert(fib_pair(12) == (233nat, 377nat));
    assert(fib_pair(13) == (377nat, 610nat));
    assert(fib_pair(14) == (610nat, 987nat));
    assert(fib_pair(15) == (987nat, 1597nat));
    assert(fib_pair(16) == (1597nat, 2584nat));
    assert(fib_pair(17) == (2584nat, 4181nat));
    assert(fib_pair(18) == (4181nat, 6765nat));
    assert(fib_pair(19) == (6765nat, 10946nat));
    assert(fib_pair(20) == (10946nat, 17711nat));
    assert(fib_pair(21) == (17711nat, 28657nat));
    assert(fib_pair(22) == (28657nat, 46368nat));
    assert(fib_pair(23) == (46368nat, 75025nat));
}

proof fn lemma_fib_pair_to_46()
    requires
        fib_pair(23) == (46368nat, 75025nat),
    ensures
        fib_pair(46) == (2971215073nat, 4807526976nat),
{
    assert(fib_pair(24) == (75025nat, 121393nat));
    assert(fib_pair(25) == (121393nat, 196418nat));
    assert(fib_pair(26) == (196418nat, 317811nat));
    assert(fib_pair(27) == (317811nat, 514229nat));
    assert(fib_pair(28) == (514229nat, 832040nat));
    assert(fib_pair(29) == (832040nat, 1346269nat));
    assert(fib_pair(30) == (1346269nat, 2178309nat));
    assert(fib_pair(31) == (2178309nat, 3524578nat));
    assert(fib_pair(32) == (3524578nat, 5702887nat));
    assert(fib_pair(33) == (5702887nat, 9227465nat));
    assert(fib_pair(34) == (9227465nat, 14930352nat));
    assert(fib_pair(35) == (14930352nat, 24157817nat));
    assert(fib_pair(36) == (24157817nat, 39088169nat));
    assert(fib_pair(37) == (39088169nat, 63245986nat));
    assert(fib_pair(38) == (63245986nat, 102334155nat));
    assert(fib_pair(39) == (102334155nat, 165580141nat));
    assert(fib_pair(40) == (165580141nat, 267914296nat));
    assert(fib_pair(41) == (267914296nat, 433494437nat));
    assert(fib_pair(42) == (433494437nat, 701408733nat));
    assert(fib_pair(43) == (701408733nat, 1134903170nat));
    assert(fib_pair(44) == (1134903170nat, 1836311903nat));
    assert(fib_pair(45) == (1836311903nat, 2971215073nat));
    assert(fib_pair(46) == (2971215073nat, 4807526976nat));
}

proof fn lemma_fib_pair_to_69()
    requires
        fib_pair(46) == (2971215073nat, 4807526976nat),
    ensures
        fib_pair(69) == (190392490709135nat, 308061521170129nat),
{
    assert(fib_pair(47) == (4807526976nat, 7778742049nat));
    assert(fib_pair(48) == (7778742049nat, 12586269025nat));
    assert(fib_pair(49) == (12586269025nat, 20365011074nat));
    assert(fib_pair(50) == (20365011074nat, 32951280099nat));
    assert(fib_pair(51) == (32951280099nat, 53316291173nat));
    assert(fib_pair(52) == (53316291173nat, 86267571272nat));
    assert(fib_pair(53) == (86267571272nat, 139583862445nat));
    assert(fib_pair(54) == (139583862445nat, 225851433717nat));
    assert(fib_pair(55) == (225851433717nat, 365435296162nat));
    assert(fib_pair(56) == (365435296162nat, 591286729879nat));
    assert(fib_pair(57) == (591286729879nat, 956722026041nat));
    assert(fib_pair(58) == (956722026041nat, 1548008755920nat));
    assert(fib_pair(59) == (1548008755920nat, 2504730781961nat));
    assert(fib_pair(60) == (2504730781961nat, 4052739537881nat));
    assert(fib_pair(61) == (4052739537881nat, 6557470319842nat));
    assert(fib_pair(62) == (6557470319842nat, 10610209857723nat));
    assert(fib_pair(63) == (10610209857723nat, 17167680177565nat));
    assert(fib_pair(64) == (17167680177565nat, 27777890035288nat));
    assert(fib_pair(65) == (27777890035288nat, 44945570212853nat));
    assert(fib_pair(66) == (44945570212853nat, 72723460248141nat));
    assert(fib_pair(67) == (72723460248141nat, 117669030460994nat));
    assert(fib_pair(68) == (117669030460994nat, 190392490709135nat));
    assert(fib_pair(69) == (190392490709135nat, 308061521170129nat));
}

proof fn lemma_fib_pair_to_92()
    requires
        fib_pair(69) == (190392490709135nat, 308061521170129nat),
    ensures
        fib_pair(92) == (12200160415121876738nat, 19740274219868223167nat),
{
    assert(fib_pair(70) == (308061521170129nat, 498454011879264nat));
    assert(fib_pair(71) == (498454011879264nat, 806515533049393nat));
    assert(fib_pair(72) == (806515533049393nat, 1304969544928657nat));
    assert(fib_pair(73) == (1304969544928657nat, 2111485077978050nat));
    assert(fib_pair(74) == (2111485077978050nat, 3416454622906707nat));
    assert(fib_pair(75) == (3416454622906707nat, 5527939700884757nat));
    assert(fib_pair(76) == (5527939700884757nat, 8944394323791464nat));
    assert(fib_pair(77) == (8944394323791464nat, 14472334024676221nat));
    assert(fib_pair(78) == (14472334024676221nat, 23416728348467685nat));
    assert(fib_pair(79) == (23416728348467685nat, 37889062373143906nat));
    assert(fib_pair(80) == (37889062373143906nat, 61305790721611591nat));
    assert(fib_pair(81) == (61305790721611591nat, 99194853094755497nat));
    assert(fib_pair(82) == (99194853094755497nat, 160500643816367088nat));
    assert(fib_pair(83) == (160500643816367088nat, 259695496911122585nat));
    assert(fib_pair(84) == (259695496911122585nat, 420196140727489673nat));
    assert(fib_pair(85) == (420196140727489673nat, 679891637638612258nat));
    assert(fib_pair(86) == (679891637638612258nat, 1100087778366101931nat));
    assert(fib_pair(87) == (1100087778366101931nat, 1779979416004714189nat));
    assert(fib_pair(88) == (1779979416004714189nat, 2880067194370816120nat));
    assert(fib_pair(89) == (2880067194370816120nat, 4660046610375530309nat));
    assert(fib_pair(90) == (4660046610375530309nat, 7540113804746346429nat));
    assert(fib_pair(91) == (7540113804746346429nat, 12200160415121876738nat));
    assert(fib_pair(92) == (12200160415121876738nat, 19740274219868223167nat));
}

/// Every term up to term 92 fits in a `u64`.
pub proof fn lemma_fib_fits_u64(n: nat)
    requires
        n <= 92,
    ensures
        fib(n) <= u64::MAX,
{
    lemma_fib_monotonic(n, 92);
    lemma_fib_pair_to_23();
    lemma_fib_pair_to_46();
    lemma_fib_pair_to_69();
    lemma_fib_pair_to_92();
    lemma_fib_pair(92);
}

/// Dynamic layer state: the current iteration/step index.
#[derive(Debug, Clone)]
pub struct DynamicLayer {
    /// Current iteration/step
    pub n: usize,
}

impl DynamicLayer {
    pub fn new(n: usize) -> (r: Self)
        ensures
            r.n == n,
    {
        Self { n }
    }

    /// Fibonacci sequence: F(1)=1, F(2)=2, F(3)=3, F(4)=5, F(5)=8, ...
    /// (Shifted Fibonacci starting from 1, 2 instead of 0, 1)
    pub fn fibonacci(&self) -> (r: u64)
        requires
            self.n <= 92,
        ensures
            r == fib(self.n as nat),
    {
        if self.n <= 1 {
            return 1;
        }
        let mut a: u64 = 1;
        let mut b: u64 = 1;
        let mut i: usize = 2;
        while i <= self.n
            invariant
                2 <= i <= self.n + 1,
                self.n <= 92,
                a == fib((i - 2) as nat),
                b == fib((i - 1) as nat),
            decreases self.n + 1 - i,
        {
            proof {
                lemma_fib_fits_u64(i as nat);
            }
            let temp = a + b;
            a = b;
            b = temp;
            i = i + 1;
        }
        b
    }
}

/// Generate a Fibonacci sequence of length n
/// Returns the first n terms: [1, 1, 2, 3, 5, 8, 13, 21, 34, 55, 89, 144, ...]
pub fn fibonacci_sequence(n: usize) -> (r: Vec<u64>)
    requires
        n <= 93,
    ensures
        r@.len() == n,
        forall|i: int| 0 <= i < n ==> r@[i] == fib(i as nat),
{
    let mut sequence: Vec<u64> = Vec::new();
    if n == 0 {
        return sequence;
    }
    sequence.push(1);
    if n == 1 {
        return sequence;
    }
    sequence.push(1);
    let mut i: usize = 2;
    while i < n
        invariant
            2 <= i <= n,
            n <= 93,
            sequence@.len() == i,
            forall|k: int| 0 <= k < i ==> sequence@[k] == fib(k as nat),
        decreases n - i,
    {
        proof {
            lemma_fib_fits_u64(i as nat);
        }
        let next = sequence[i - 1] + sequence[i - 2];
        sequence.push(next);
        i = i + 1;
    }
    sequence
}

} // verus!
