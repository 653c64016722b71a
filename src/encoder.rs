use vstd::prelude::*;

use crate::wire::WireValue;

verus! {

/// Why an argument list could not be put on the wire.
#[derive(Debug)]
pub enum EncodeError {
    /// The optional argument at `index` (in the full argument list) is unset, a later
    /// optional argument is set, and no default is declared to fill the gap.
    MissingDefault { index: usize },
    /// The argument list does not have one value per parameter slot.
    WrongArgumentCount { expected: usize, got: usize },
    /// The argument at `index` is not accepted by the bound protocol version.
    UnsupportedArgument { index: usize },
    /// Both of two mutually exclusive identifying arguments were supplied.
    DisconnectNodeArgsBoth,
    /// Neither of two alternative identifying arguments was supplied.
    DisconnectNodeArgsNone,
}

/// Number of leading (required) positions: `args.len() - defaults.len()`.
pub open spec fn required_len(args: Seq<WireValue>, defaults: Seq<WireValue>) -> int {
    args.len() - defaults.len()
}

/// Index of the rightmost non-null value among positions `lo..hi`, or `lo - 1` when
/// every one of them is null.
pub open spec fn last_set(args: Seq<WireValue>, lo: int, hi: int) -> int
    decreases hi - lo,
{
    if hi <= lo {
        lo - 1
    } else if !args[hi - 1].is_null_spec() {
        hi - 1
    } else {
        last_set(args, lo, hi - 1)
    }
}

/// Length of the wire list: everything up to and including the rightmost set optional
/// argument, or the required prefix alone when no optional argument is set.
pub open spec fn encoded_len(args: Seq<WireValue>, defaults: Seq<WireValue>) -> int {
    last_set(args, required_len(args, defaults), args.len() as int) + 1
}

/// Position `j` is an unset optional argument without a usable default.
pub open spec fn is_hole(args: Seq<WireValue>, defaults: Seq<WireValue>, j: int) -> bool {
    let r = required_len(args, defaults);
    &&& r <= j < args.len()
    &&& args[j].is_null_spec()
    &&& defaults[j - r].is_null_spec()
}

/// Some gap before the rightmost set optional argument has no default to fill it.
pub open spec fn has_missing_default(args: Seq<WireValue>, defaults: Seq<WireValue>) -> bool {
    exists|j: int| 0 <= j < encoded_len(args, defaults) && #[trigger] is_hole(args, defaults, j)
}

/// The value sent at position `j`: the argument, or its default when it is an unset
/// optional argument.
pub open spec fn filled(args: Seq<WireValue>, defaults: Seq<WireValue>, j: int) -> WireValue {
    let r = required_len(args, defaults);
    if r <= j && args[j].is_null_spec() {
        defaults[j - r]
    } else {
        args[j]
    }
}

/// The wire list produced by trailing-default elision.
pub open spec fn encoded(args: Seq<WireValue>, defaults: Seq<WireValue>) -> Seq<WireValue> {
    Seq::new(encoded_len(args, defaults) as nat, |j: int| filled(args, defaults, j))
}

/// `wire` padded with the "no value" marker up to `n` positions.
pub open spec fn pad(wire: Seq<WireValue>, n: int) -> Seq<WireValue> {
    Seq::new(n as nat, |j: int| if j < wire.len() { wire[j] } else { WireValue::Null })
}

/// What trailing-default elision returns for `args` against `defaults`: the elided list
/// when no gap lacks a default, else the rightmost such gap.
pub open spec fn elision_outcome(
    args: Seq<WireValue>,
    defaults: Seq<WireValue>,
    r: Result<Vec<WireValue>, EncodeError>,
) -> bool {
    match r {
        Ok(v) => !has_missing_default(args, defaults) && v@ == encoded(args, defaults),
        Err(EncodeError::MissingDefault { index }) => {
            &&& has_missing_default(args, defaults)
            &&& index < encoded_len(args, defaults)
            &&& is_hole(args, defaults, index as int)
            &&& forall|k: int|
                index < k < encoded_len(args, defaults) ==> !#[trigger] is_hole(args, defaults, k)
        },
        Err(_) => false,
    }
}

proof fn lemma_last_set_bounds(args: Seq<WireValue>, lo: int, hi: int)
    requires
        0 <= lo <= hi <= args.len(),
    ensures
        lo - 1 <= last_set(args, lo, hi) < hi,
        last_set(args, lo, hi) >= lo ==> !args[last_set(args, lo, hi)].is_null_spec(),
        forall|j: int| last_set(args, lo, hi) < j < hi ==> (#[trigger] args[j]).is_null_spec(),
    decreases hi - lo,
{
    if hi > lo && args[hi - 1].is_null_spec() {
        lemma_last_set_bounds(args, lo, hi - 1);
    }
}

/// Collapse a full argument list into the shortest wire list.
///
/// `defaults` lines up with the last `defaults.len()` positions of `args`, the optional
/// ones; the positions before them are required. `Null` in `args` means "no value", and
/// `Null` in `defaults` means that no default is declared. Unset optional arguments after
/// the rightmost set one are dropped; unset ones before it take their default.
pub fn handle_defaults(args: &Vec<WireValue>, defaults: &Vec<WireValue>) -> (r: Result<
    Vec<WireValue>,
    EncodeError,
>)
    requires
        args.len() >= defaults.len(),
    ensures
        elision_outcome(args@, defaults@, r),
        r is Ok <==> !has_missing_default(args@, defaults@),
        r matches Ok(v) ==> args.len() - defaults.len() <= v.len() <= args.len(),
{
    let n = args.len();
    let req = n - defaults.len();
    proof {
        lemma_last_set_bounds(args@, req as int, n as int);
    }
    // Find the rightmost set optional argument.
    let mut hi: usize = n;
    while hi > req && args[hi - 1].is_null()
        invariant
            req <= hi <= n,
            n == args.len(),
            req == n - defaults.len(),
            last_set(args@, req as int, n as int) == last_set(args@, req as int, hi as int),
        decreases hi,
    {
        hi = hi - 1;
    }
    assert(hi == encoded_len(args@, defaults@));
    // Every unset optional argument before it needs a default; report the rightmost
    // that has none.
    let mut j: usize = hi;
    while j > req
        invariant
            req <= j <= hi <= n,
            n == args.len(),
            req == n - defaults.len(),
            hi == encoded_len(args@, defaults@),
            forall|k: int| j <= k < hi ==> !#[trigger] is_hole(args@, defaults@, k),
        decreases j,
    {
        j = j - 1;
        if args[j].is_null() && defaults[j - req].is_null() {
            assert(is_hole(args@, defaults@, j as int));
            return Err(EncodeError::MissingDefault { index: j });
        }
    }
    assert forall|k: int| 0 <= k < encoded_len(args@, defaults@) implies !#[trigger] is_hole(
        args@,
        defaults@,
        k,
    ) by {
        if k >= req {
            assert(j <= k);
        }
    }
    // Build the wire list, filling the gaps.
    let mut out: Vec<WireValue> = Vec::new();
    let mut i: usize = 0;
    while i < hi
        invariant
            i <= hi <= n,
            n == args.len(),
            req == n - defaults.len(),
            out@.len() == i,
            forall|k: int| 0 <= k < i ==> out@[k] == #[trigger] filled(args@, defaults@, k),
        decreases hi - i,
    {
        if i >= req && args[i].is_null() {
            out.push(defaults[i - req].duplicate());
        } else {
            out.push(args[i].duplicate());
        }
        i = i + 1;
    }
    assert(out@ =~= encoded(args@, defaults@));
    Ok(out)
}

/// Encoding the padded output of an encoding gives that output back.
pub proof fn lemma_elision_idempotent(args: Seq<WireValue>, defaults: Seq<WireValue>)
    requires
        args.len() >= defaults.len(),
        !has_missing_default(args, defaults),
    ensures
        ({
            let e = encoded(args, defaults);
            let p = pad(e, args.len() as int);
            &&& p.len() == args.len()
            &&& !has_missing_default(p, defaults)
            &&& encoded(p, defaults) == e
        }),
{
    let r = required_len(args, defaults);
    let n = args.len() as int;
    let e = encoded(args, defaults);
    let p = pad(e, n);
    let last = last_set(args, r, n);
    lemma_last_set_bounds(args, r, n);
    lemma_last_set_bounds(p, r, n);
    // Every optional position of `p` up to `last` holds a value.
    assert forall|j: int| r <= j <= last implies !(#[trigger] p[j]).is_null_spec() by {
        if j < last {
            assert(!is_hole(args, defaults, j));
        }
    }
    let lp = last_set(p, r, n);
    if lp > last {
        assert(p[lp] == WireValue::Null);
    }
    if lp < last {
        assert(!p[last].is_null_spec());
    }
    assert(lp == last);
    assert forall|j: int| 0 <= j < encoded_len(p, defaults) implies !#[trigger] is_hole(
        p,
        defaults,
        j,
    ) by {
        if r <= j {
            assert(!p[j].is_null_spec());
        }
    }
    assert forall|j: int| 0 <= j < e.len() implies #[trigger] filled(p, defaults, j) == e[j] by {
        if r <= j {
            assert(!p[j].is_null_spec());
        }
    }
    assert(encoded(p, defaults) =~= e);
}

/// With no optional argument set, the wire list is exactly the required prefix.
pub proof fn lemma_no_optional_set(args: Seq<WireValue>, defaults: Seq<WireValue>)
    requires
        args.len() >= defaults.len(),
        forall|j: int|
            required_len(args, defaults) <= j < args.len() ==> (#[trigger] args[j]).is_null_spec(),
    ensures
        !has_missing_default(args, defaults),
        encoded(args, defaults) == args.subrange(0, required_len(args, defaults)),
        encoded(args, defaults).len() == required_len(args, defaults),
{
    let r = required_len(args, defaults);
    lemma_last_set_bounds(args, r, args.len() as int);
    assert(encoded(args, defaults) =~= args.subrange(0, r));
}

/// When optional slot `k` is set and the optional slots before it are not, the wire list
/// reaches slot `k` and carries the declared defaults before it; if one of them has no
/// default, encoding fails.
pub proof fn lemma_first_set_optional(args: Seq<WireValue>, defaults: Seq<WireValue>, k: int)
    requires
        args.len() >= defaults.len(),
        0 <= k < defaults.len(),
        !args[required_len(args, defaults) + k].is_null_spec(),
        forall|j: int|
            required_len(args, defaults) <= j < required_len(args, defaults) + k
                ==> (#[trigger] args[j]).is_null_spec(),
    ensures
        (exists|j: int| 0 <= j < k && (#[trigger] defaults[j]).is_null_spec()) ==> has_missing_default(
            args,
            defaults,
        ),
        !has_missing_default(args, defaults) ==> {
            &&& encoded(args, defaults).len() > required_len(args, defaults) + k
            &&& encoded(args, defaults)[required_len(args, defaults) + k] == args[required_len(
                args,
                defaults,
            ) + k]
            &&& forall|j: int|
                0 <= j < k ==> encoded(args, defaults)[required_len(args, defaults) + j]
                    == #[trigger] defaults[j]
        },
{
    let r = required_len(args, defaults);
    let n = args.len() as int;
    lemma_last_set_bounds(args, r, n);
    let last = last_set(args, r, n);
    if last < r + k {
        assert(args[r + k].is_null_spec());
    }
    if exists|j: int| 0 <= j < k && (#[trigger] defaults[j]).is_null_spec() {
        let j = choose|j: int| 0 <= j < k && (#[trigger] defaults[j]).is_null_spec();
        assert(is_hole(args, defaults, r + j));
    }
    assert forall|j: int| 0 <= j < k implies encoded(args, defaults)[r + j] == #[trigger] defaults[j] by {
        assert(args[r + j].is_null_spec());
    }
}

/// The value used for an optional slot's default: the declared one, or `Null` when none is.
pub open spec fn default_value(d: Option<WireValue>) -> WireValue {
    match d {
        Some(v) => v,
        None => WireValue::Null,
    }
}

/// The positional parameters of one operation under one protocol version: `required`
/// leading slots, then one optional slot per entry of `defaults`, each with the server's
/// documented default when a usable one exists. Optional slots are trailing by construction.
#[derive(Debug)]
pub struct OperationSignature {
    pub method: String,
    pub required: usize,
    pub defaults: Vec<Option<WireValue>>,
}

impl OperationSignature {
    /// Number of parameter slots.
    pub open spec fn arity(&self) -> int {
        self.required + self.defaults.len()
    }

    /// The defaults of the optional slots, `Null` standing for "none declared".
    pub open spec fn default_values(&self) -> Seq<WireValue> {
        self.defaults@.map_values(|d: Option<WireValue>| default_value(d))
    }

    /// Shortest wire list for a full argument list (one value per slot, `Null` for an
    /// unset optional argument).
    pub fn encode(&self, args: &Vec<WireValue>) -> (r: Result<Vec<WireValue>, EncodeError>)
        requires
            self.arity() <= usize::MAX,
        ensures
            args.len() != self.arity() ==> r == Err::<Vec<WireValue>, EncodeError>(
                EncodeError::WrongArgumentCount {
                    expected: self.arity() as usize,
                    got: args.len(),
                },
            ),
            args.len() == self.arity() ==> elision_outcome(args@, self.default_values(), r),
            r matches Ok(v) ==> self.required <= v.len() <= self.arity(),
    {
        let arity = self.required + self.defaults.len();
        if args.len() != arity {
            return Err(EncodeError::WrongArgumentCount { expected: arity, got: args.len() });
        }
        let mut defaults: Vec<WireValue> = Vec::new();
        let mut i: usize = 0;
        while i < self.defaults.len()
            invariant
                i <= self.defaults.len(),
                defaults@.len() == i,
                forall|k: int| 0 <= k < i ==> defaults@[k] == #[trigger] self.default_values()[k],
            decreases self.defaults.len() - i,
        {
            match &self.defaults[i] {
                Some(v) => defaults.push(v.duplicate()),
                None => defaults.push(WireValue::Null),
            }
            i = i + 1;
        }
        assert(defaults@ =~= self.default_values());
        handle_defaults(args, &defaults)
    }

    /// The full argument list that a wire list stands for: the wire list padded with the
    /// "no value" marker up to the signature's arity.
    pub fn decode_minimal(&self, wire: &Vec<WireValue>) -> (r: Vec<WireValue>)
        requires
            wire.len() <= self.arity() <= usize::MAX,
        ensures
            r@ == pad(wire@, self.arity()),
    {
        let arity = self.required + self.defaults.len();
        let mut out: Vec<WireValue> = Vec::new();
        let mut i: usize = 0;
        while i < arity
            invariant
                i <= arity,
                arity == self.arity(),
                wire.len() <= arity,
                out@.len() == i,
                forall|k: int| 0 <= k < i ==> out@[k] == #[trigger] pad(wire@, arity as int)[k],
            decreases arity - i,
        {
            if i < wire.len() {
                out.push(wire[i].duplicate());
            } else {
                out.push(WireValue::Null);
            }
            i = i + 1;
        }
        assert(out@ =~= pad(wire@, arity as int));
        out
    }
}

/// Encoding is a no-op on its own output: for every signature and every argument list that
/// encodes, encoding the padded wire list gives the same wire list.
pub proof fn lemma_encode_idempotent(sig: OperationSignature, args: Seq<WireValue>)
    requires
        args.len() == sig.arity(),
        !has_missing_default(args, sig.default_values()),
    ensures
        ({
            let e = encoded(args, sig.default_values());
            let p = pad(e, sig.arity());
            &&& p.len() == sig.arity()
            &&& !has_missing_default(p, sig.default_values())
            &&& encoded(p, sig.default_values()) == e
        }),
{
    lemma_elision_idempotent(args, sig.default_values());
}

} // verus!
