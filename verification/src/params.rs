//! Parameter lists: optional parameters before required ones, too many
//! parameters, and boolean flag parameters.
use vstd::prelude::*;

use crate::config::{ExcessiveParameterListConfig, NoBooleanFlagParameterConfig};
use crate::text::{ascii, ascii_bytes, bytes_eq_ignore_ascii_case, bytes_equal, eq_ignore_ascii_case};

verus! {

// ---------------------------------------------------------------------------
// Optional parameters before required ones
// ---------------------------------------------------------------------------

/// A report: the optional parameters (by index) that precede the required
/// parameter at `required`.
#[derive(PartialEq, Eq, Debug)]
pub struct ParameterOrderReport {
    pub required: usize,
    pub optionals: Vec<usize>,
}

/// The reports so far for the parameters whose optionality is `optional`,
/// and the optional parameters seen since the last report. Each required
/// parameter that follows optional ones is reported with all of them, and
/// those are then forgotten.
pub open spec fn scan_parameters(optional: Seq<bool>) -> (Seq<(nat, Seq<nat>)>, Seq<nat>)
    decreases optional.len(),
{
    if optional.len() == 0 {
        (Seq::empty(), Seq::empty())
    } else {
        let (reports, pending) = scan_parameters(optional.drop_last());
        let i = (optional.len() - 1) as nat;
        if optional.last() {
            (reports, pending.push(i))
        } else if pending.len() > 0 {
            (reports.push((i, pending)), Seq::empty())
        } else {
            (reports, pending)
        }
    }
}

/// The plain values of the reports.
pub open spec fn reports_view(rs: Seq<ParameterOrderReport>) -> Seq<(nat, Seq<nat>)> {
    rs.map_values(|r: ParameterOrderReport| (r.required as nat, r.optionals@.map_values(|k: usize| k as nat)))
}

/// The reports for a parameter list, given for each parameter whether it is
/// optional (it has a default value or is variadic).
pub fn optional_parameter_reports(optional: &Vec<bool>) -> (reports: Vec<ParameterOrderReport>)
    ensures
        reports_view(reports@) == scan_parameters(optional@).0,
{
    let mut reports: Vec<ParameterOrderReport> = Vec::new();
    let mut pending: Vec<usize> = Vec::new();
    let mut k: usize = 0;
    assert(optional@.take(0) =~= Seq::<bool>::empty());
    while k < optional.len()
        invariant
            k <= optional@.len(),
            (reports_view(reports@), pending@.map_values(|j: usize| j as nat)) == scan_parameters(
                optional@.take(k as int),
            ),
        decreases optional@.len() - k,
    {
        let ghost before_reports = reports@;
        let ghost before_pending = pending@;
        assert(optional@.take(k as int + 1).drop_last() =~= optional@.take(k as int));
        assert(optional@.take(k as int + 1).last() == optional@[k as int]);
        if optional[k] {
            pending.push(k);
            assert(pending@.map_values(|j: usize| j as nat) =~= before_pending.map_values(|j: usize| j as nat).push(
                k as nat,
            ));
        } else if pending.len() > 0 {
            let optionals = pending;
            pending = Vec::new();
            reports.push(ParameterOrderReport { required: k, optionals });
            assert(reports_view(reports@) =~= reports_view(before_reports).push(
                (k as nat, before_pending.map_values(|j: usize| j as nat)),
            ));
            assert(pending@.map_values(|j: usize| j as nat) =~= Seq::<nat>::empty());
        }
        k += 1;
    }
    assert(optional@.take(k as int) =~= optional@);
    reports
}

proof fn lemma_scan_parameters(optional: Seq<bool>)
    ensures
        ({
            let (reports, pending) = scan_parameters(optional);
            &&& forall|r: int| 0 <= r < reports.len() ==> {
                &&& (#[trigger] reports[r]).0 < optional.len()
                &&& !optional[reports[r].0 as int]
                &&& reports[r].1.len() > 0
                &&& forall|j: int| 0 <= j < reports[r].1.len() ==> #[trigger] reports[r].1[j] < reports[r].0
                    && optional[reports[r].1[j] as int]
            }
            &&& forall|j: int| 0 <= j < pending.len() ==> #[trigger] pending[j] < optional.len()
                && optional[pending[j] as int]
        }),
    decreases optional.len(),
{
    if optional.len() > 0 {
        let prev = optional.drop_last();
        lemma_scan_parameters(prev);
        let (pr, pp) = scan_parameters(prev);
        let (reports, pending) = scan_parameters(optional);
        let i = optional.len() - 1;
        assert forall|k: int| 0 <= k < prev.len() implies prev[k] == #[trigger] optional[k] by {}
        if optional.last() {
            assert(reports == pr);
            assert forall|j: int| 0 <= j < pending.len() implies #[trigger] pending[j] < optional.len()
                && optional[pending[j] as int] by {
                if j < pp.len() {
                    assert(pending[j] == pp[j]);
                }
            }
        } else if pp.len() > 0 {
            assert forall|r: int| 0 <= r < reports.len() implies {
                &&& (#[trigger] reports[r]).0 < optional.len()
                &&& !optional[reports[r].0 as int]
                &&& reports[r].1.len() > 0
                &&& forall|j: int| 0 <= j < reports[r].1.len() ==> #[trigger] reports[r].1[j] < reports[r].0
                    && optional[reports[r].1[j] as int]
            } by {
                if r < pr.len() {
                    assert(reports[r] == pr[r]);
                } else {
                    assert(reports[r] == (i as nat, pp));
                }
            }
        }
    }
}

/// Every report names a required parameter and only optional parameters
/// that precede it; and a list where no optional parameter precedes a
/// required one gets no report.
pub proof fn law_parameter_order_reports(optional: Seq<bool>)
    ensures
        forall|r: int| 0 <= r < scan_parameters(optional).0.len() ==> {
            let report = #[trigger] scan_parameters(optional).0[r];
            &&& report.0 < optional.len()
            &&& !optional[report.0 as int]
            &&& report.1.len() > 0
            &&& forall|j: int| 0 <= j < report.1.len() ==> #[trigger] report.1[j] < report.0 && optional[report.1[j] as int]
        },
        (forall|a: int, b: int| 0 <= a < b < optional.len() && #[trigger] optional[a] ==> #[trigger] optional[b])
            ==> scan_parameters(optional).0.len() == 0,
{
    lemma_scan_parameters(optional);
    if forall|a: int, b: int| 0 <= a < b < optional.len() && #[trigger] optional[a] ==> #[trigger] optional[b] {
        let reports = scan_parameters(optional).0;
        if reports.len() > 0 {
            let report = reports[0];
            assert(report.1.len() > 0);
            let a = report.1[0] as int;
            assert(a < report.0 && optional[a]);
            assert(optional[report.0 as int]);
        }
    }
}

// ---------------------------------------------------------------------------
// Too many parameters
// ---------------------------------------------------------------------------

/// Whether a method name is that of a constructor (`__construct`, in any case).
pub open spec fn spec_is_constructor_name(name: Seq<u8>) -> bool {
    eq_ignore_ascii_case(name, ascii("__construct"@))
}

/// Whether `name` is the name of a constructor.
pub fn is_constructor_name(name: &[u8]) -> (r: bool)
    ensures
        r == spec_is_constructor_name(name@),
{
    proof {
        reveal_strlit("__construct");
    }
    bytes_eq_ignore_ascii_case(name, ascii_bytes("__construct"))
}

/// The threshold that applies to a parameter list: the constructor threshold
/// (when set) for a constructor, the general one otherwise.
pub open spec fn spec_parameter_threshold(cfg: ExcessiveParameterListConfig, is_constructor: bool) -> u8 {
    if is_constructor && cfg.constructor_threshold is Some {
        cfg.constructor_threshold->0
    } else {
        cfg.threshold
    }
}

/// Whether a parameter list of `count` parameters is too long: it has more
/// parameters than the threshold allows.
pub open spec fn spec_too_many_parameters(cfg: ExcessiveParameterListConfig, is_constructor: bool, count: nat) -> bool {
    count > spec_parameter_threshold(cfg, is_constructor)
}

/// Decides whether a parameter list of `count` parameters is reported;
/// `method_name` is the name of the enclosing method, if it is a method.
pub fn too_many_parameters(cfg: &ExcessiveParameterListConfig, method_name: Option<&[u8]>, count: usize) -> (r: (
    bool,
    u8,
))
    ensures
        ({
            let is_constructor = method_name matches Some(n) && spec_is_constructor_name(n@);
            &&& r.1 == spec_parameter_threshold(*cfg, is_constructor)
            &&& r.0 == spec_too_many_parameters(*cfg, is_constructor, count as nat)
        }),
{
    let is_constructor = match method_name {
        Some(n) => is_constructor_name(n),
        None => false,
    };
    let threshold = if is_constructor {
        match cfg.constructor_threshold {
            Some(t) => t,
            None => cfg.threshold,
        }
    } else {
        cfg.threshold
    };
    (count > threshold as usize, threshold)
}

// ---------------------------------------------------------------------------
// Boolean flag parameters
// ---------------------------------------------------------------------------

/// Whether a boolean parameter of the method named `name` is exempt:
/// constructors when they are excluded, and setters (names of more than
/// three bytes that start with `set`, in any case) when they are excluded.
pub open spec fn spec_flag_parameter_exempt(cfg: NoBooleanFlagParameterConfig, name: Seq<u8>) -> bool {
    (cfg.exclude_constructors && spec_is_constructor_name(name)) || (cfg.exclude_setters && name.len() > 3
        && eq_ignore_ascii_case(name.take(3), ascii("set"@)))
}

/// Whether a parameter is reported: it is not a promoted property, its type
/// hint is `bool`, its enclosing method (if it is one) is not exempt, and,
/// when the enclosing function-like has a body, the body uses it as a flag.
pub open spec fn spec_flag_parameter_reported(
    cfg: NoBooleanFlagParameterConfig,
    is_promoted_property: bool,
    is_bool_hint: bool,
    method_name: Option<Seq<u8>>,
    used_as_flag: Option<bool>,
) -> bool {
    &&& !is_promoted_property
    &&& is_bool_hint
    &&& !(method_name matches Some(n) && spec_flag_parameter_exempt(cfg, n))
    &&& !(used_as_flag == Some(false))
}

/// Decides whether a boolean flag parameter is reported; `used_as_flag` is
/// whether the body of the enclosing function-like uses it as a flag, or
/// `None` when there is no body to inspect.
pub fn flag_parameter_reported(
    cfg: &NoBooleanFlagParameterConfig,
    is_promoted_property: bool,
    is_bool_hint: bool,
    method_name: Option<&[u8]>,
    used_as_flag: Option<bool>,
) -> (r: bool)
    ensures
        r == spec_flag_parameter_reported(
            *cfg,
            is_promoted_property,
            is_bool_hint,
            match method_name {
                Some(n) => Some(n@),
                None => None,
            },
            used_as_flag,
        ),
{
    if is_promoted_property || !is_bool_hint {
        return false;
    }
    if let Some(name) = method_name {
        if cfg.exclude_constructors && is_constructor_name(name) {
            return false;
        }
        if cfg.exclude_setters && name.len() > 3 {
            proof {
                reveal_strlit("set");
            }
            let prefix = crate::text::bytes_subrange(name, 0, 3);
            assert(prefix@ =~= name@.take(3));
            if bytes_eq_ignore_ascii_case(prefix.as_slice(), ascii_bytes("set")) {
                return false;
            }
        }
    }
    match used_as_flag {
        Some(false) => false,
        _ => true,
    }
}

/// A node of a function body, as far as the flag analysis reads it.
#[derive(PartialEq, Eq, Debug)]
pub enum FlagNode {
    /// A direct variable, by its name with the `$`.
    Variable { name: Vec<u8> },
    /// An assignment, whether it is a plain `=`, and its two sides.
    Assignment { plain: bool, lhs: Box<FlagNode>, rhs: Box<FlagNode> },
    /// Any other node, with its children.
    Other { children: Vec<FlagNode> },
}

/// Whether a node references the parameter named `target` other than as
/// the value a plain assignment stores (`$x = $param;`).
pub open spec fn node_uses_as_flag(n: FlagNode, target: Seq<u8>) -> bool
    decreases n, 0int,
{
    match n {
        FlagNode::Variable { name } => name@ == target,
        FlagNode::Assignment { plain, lhs, rhs } => {
            let plain_store = plain && match *rhs {
                FlagNode::Variable { name } => name@ == target,
                _ => false,
            };
            (!plain_store && node_uses_as_flag(*rhs, target)) || node_uses_as_flag(*lhs, target)
        },
        FlagNode::Other { children } => list_uses_as_flag(children@, target),
    }
}

/// Whether one of the nodes uses the parameter as a flag.
pub open spec fn list_uses_as_flag(ns: Seq<FlagNode>, target: Seq<u8>) -> bool
    decreases ns, 0int,
{
    if ns.len() == 0 {
        false
    } else {
        list_uses_as_flag(ns.drop_last(), target) || node_uses_as_flag(ns.last(), target)
    }
}

fn node_is_flag_use(n: &FlagNode, target: &[u8]) -> (r: bool)
    ensures
        r == node_uses_as_flag(*n, target@),
    decreases n, 0int,
{
    match n {
        FlagNode::Variable { name } => bytes_equal(name.as_slice(), target),
        FlagNode::Assignment { plain, lhs, rhs } => {
            let plain_store = *plain && match &**rhs {
                FlagNode::Variable { name } => bytes_equal(name.as_slice(), target),
                _ => false,
            };
            (!plain_store && node_is_flag_use(rhs, target)) || node_is_flag_use(lhs, target)
        },
        FlagNode::Other { children } => is_used_as_flag(children, target),
    }
}

/// Whether the statements of a function body use the parameter named
/// `target` as a flag.
pub fn is_used_as_flag(body: &Vec<FlagNode>, target: &[u8]) -> (r: bool)
    ensures
        r == list_uses_as_flag(body@, target@),
    decreases body, 0int,
{
    let mut k: usize = 0;
    let mut used = false;
    while k < body.len()
        invariant
            k <= body.len(),
            used == list_uses_as_flag(body@.take(k as int), target@),
        decreases body.len() - k,
    {
        let here = node_is_flag_use(&body[k], target);
        assert(body@.take(k + 1).drop_last() =~= body@.take(k as int));
        used = used || here;
        k += 1;
    }
    assert(body@.take(k as int) =~= body@);
    used
}

/// The nearest enclosing function-like of a parameter.
#[derive(PartialEq, Eq, Debug)]
pub enum EnclosingFunctionLike {
    /// A function, method or closure, with its body when it has one (an
    /// abstract or interface method has none).
    WithBody { body: Option<Vec<FlagNode>> },
    /// An arrow function, whose body is an expression.
    ArrowFunction,
}

/// Whether the body of the enclosing function-like uses the parameter as a
/// flag; `None` when there is no block body to inspect.
pub open spec fn spec_flag_use(enclosing: Option<EnclosingFunctionLike>, target: Seq<u8>) -> Option<bool> {
    match enclosing {
        Some(EnclosingFunctionLike::WithBody { body: Some(b) }) => Some(list_uses_as_flag(b@, target)),
        _ => None,
    }
}

/// Whether the body of the enclosing function-like uses the parameter as a
/// flag; `None` when there is no block body to inspect.
pub fn flag_use(enclosing: &Option<EnclosingFunctionLike>, target: &[u8]) -> (r: Option<bool>)
    ensures
        r == spec_flag_use(*enclosing, target@),
{
    match enclosing {
        Some(EnclosingFunctionLike::WithBody { body: Some(b) }) => Some(is_used_as_flag(b, target)),
        _ => None,
    }
}

} // verus!
