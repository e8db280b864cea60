//! Configuration for audit behavior and scoring heuristics.
//!
//! Scoring weights are held in thousandths (1000 stands for 1.0) and the
//! footprint risk limit in hundredths (100 stands for 1.0).
use vstd::prelude::*;
use crate::error::AuditError;
use crate::fmt::{decimal, decimal_text};
use vstd::string::*;

verus! {

/// The total that scoring weights must reach: 1.0 in thousandths.
pub const WEIGHT_TOTAL: u64 = 1000;

/// How far, in thousandths, a weight total may stray from `WEIGHT_TOTAL` and still validate.
pub const WEIGHT_TOLERANCE: u64 = 10;

/// Weights for the components of the health score, in thousandths.
#[derive(Clone, Copy, Debug, PartialEq, Eq, Structural)]
pub struct ScoringWeights {
    /// Weight for the recency score.
    pub recency: u32,
    /// Weight for the maintenance score.
    pub maintenance: u32,
    /// Weight for the community score.
    pub community: u32,
    /// Weight for the stability score.
    pub stability: u32,
    /// Weight for the security score.
    pub security: u32,
}

/// The message of a weight total that is not 1.0.
pub open spec fn weights_message(total: int) -> Seq<char> {
    "Scoring weights must sum to 1.0 (1000 thousandths), got "@ + decimal_text(total as nat)
}

impl ScoringWeights {
    /// The sum of the five weights.
    pub open spec fn total(&self) -> int {
        self.recency + self.maintenance + self.community + self.stability + self.security
    }

    /// The weights sum to exactly 1.0.
    pub open spec fn sums_to_one(&self) -> bool {
        self.total() == WEIGHT_TOTAL
    }

    /// The weights sum to 1.0 within the validation tolerance.
    pub open spec fn near_one(&self) -> bool {
        WEIGHT_TOTAL - WEIGHT_TOLERANCE <= self.total() <= WEIGHT_TOTAL + WEIGHT_TOLERANCE
    }

    fn sum(&self) -> (r: u64)
        ensures
            r == self.total(),
    {
        self.recency as u64 + self.maintenance as u64 + self.community as u64
            + self.stability as u64 + self.security as u64
    }

    /// Validate that the weights sum to 1.0 (within 0.01); the error reports
    /// the sum, in thousandths.
    pub fn validate(&self) -> (r: Result<(), AuditError>)
        ensures
            r is Ok <==> self.near_one(),
            r matches Err(e) ==> (e matches AuditError::ConfigError(m) && m@ == weights_message(
                self.total(),
            )),
    {
        let sum = self.sum();
        if sum < WEIGHT_TOTAL - WEIGHT_TOLERANCE || sum > WEIGHT_TOTAL + WEIGHT_TOLERANCE {
            let head = "Scoring weights must sum to 1.0 (1000 thousandths), got ".to_owned();
            let msg = head.concat(decimal(sum).as_str());
            return Err(AuditError::config(msg.as_str()));
        }
        Ok(())
    }

    /// Scale the weights so that they sum to exactly 1.0: each becomes its
    /// share of the old total, rounded down, and the recency weight takes up
    /// what the rounding left over. Weights that sum to zero stay as they are.
    pub fn normalize(&mut self)
        ensures
            old(self).total() == 0 ==> *final(self) == *old(self),
            old(self).total() > 0 ==> {
                &&& final(self).sums_to_one()
                &&& final(self).maintenance == old(self).maintenance * WEIGHT_TOTAL
                    / old(self).total()
                &&& final(self).community == old(self).community * WEIGHT_TOTAL / old(
                    self,
                ).total()
                &&& final(self).stability == old(self).stability * WEIGHT_TOTAL / old(
                    self,
                ).total()
                &&& final(self).security == old(self).security * WEIGHT_TOTAL / old(self).total()
            },
    {
        let sum = self.sum();
        if sum == 0 {
            return;
        }
        let m = share(self.maintenance, sum);
        let c = share(self.community, sum);
        let s = share(self.stability, sum);
        let y = share(self.security, sum);
        proof {
            lemma_shares_fit(
                self.recency as int,
                self.maintenance as int,
                self.community as int,
                self.stability as int,
                self.security as int,
                sum as int,
            );
        }
        self.recency = (WEIGHT_TOTAL - (m as u64 + c as u64 + s as u64 + y as u64)) as u32;
        self.maintenance = m;
        self.community = c;
        self.stability = s;
        self.security = y;
    }
}

/// `w`'s share of `total`, in thousandths, rounded down.
fn share(w: u32, total: u64) -> (r: u32)
    requires
        w <= total,
        total > 0,
    ensures
        r == w as int * WEIGHT_TOTAL / total as int,
        r <= WEIGHT_TOTAL,
{
    assert(w as int * 1000 / total as int <= 1000) by (nonlinear_arith)
        requires
            w <= total,
            total > 0,
    ;
    assert(w as int * 1000 <= u32::MAX as int * 1000) by (nonlinear_arith)
        requires
            w <= u32::MAX,
    ;
    ((w as u64 * WEIGHT_TOTAL) / total) as u32
}

proof fn lemma_shares_fit(a: int, b: int, c: int, d: int, e: int, t: int)
    requires
        a >= 0,
        b >= 0,
        c >= 0,
        d >= 0,
        e >= 0,
        t == a + b + c + d + e,
        t > 0,
    ensures
        b * 1000 / t + c * 1000 / t + d * 1000 / t + e * 1000 / t <= 1000,
{
    assert(b * 1000 / t + c * 1000 / t + d * 1000 / t + e * 1000 / t <= (b + c + d + e) * 1000
        / t) by (nonlinear_arith)
        requires
            b >= 0,
            c >= 0,
            d >= 0,
            e >= 0,
            t > 0,
    ;
    assert((b + c + d + e) * 1000 / t <= 1000) by (nonlinear_arith)
        requires
            b + c + d + e <= t,
            b + c + d + e >= 0,
            t > 0,
    ;
}

impl Default for ScoringWeights {
    fn default() -> (r: ScoringWeights)
        ensures
            r == (ScoringWeights {
                recency: 400,
                maintenance: 300,
                community: 200,
                stability: 100,
                security: 0,
            }),
    {
        ScoringWeights { recency: 400, maintenance: 300, community: 200, stability: 100, security: 0 }
    }
}

/// Thresholds for determining staleness.
#[derive(Clone, Copy, Debug, PartialEq, Eq, Structural)]
pub struct StalenessThresholds {
    /// Days since last update before considering "stale".
    pub stale_days: u32,
    /// Days since last update before considering "risky".
    pub risky_days: u32,
    /// Minimum number of maintainers to be considered healthy.
    pub min_maintainers: u32,
}

impl Default for StalenessThresholds {
    fn default() -> (r: StalenessThresholds)
        ensures
            r == (StalenessThresholds { stale_days: 365, risky_days: 730, min_maintainers: 1 }),
    {
        StalenessThresholds { stale_days: 365, risky_days: 730, min_maintainers: 1 }
    }
}

/// License policy configuration.
#[derive(Clone, Debug)]
pub struct LicensePolicy {
    /// Allowed licenses (empty allows all).
    pub allowed_licenses: Vec<String>,
    /// Explicitly forbidden licenses.
    pub forbidden_licenses: Vec<String>,
    /// Warn on copyleft licenses.
    pub warn_on_copyleft: bool,
    /// Warn on unknown licenses.
    pub warn_on_unknown: bool,
}

impl Default for LicensePolicy {
    fn default() -> (r: LicensePolicy)
        ensures
            r.allowed_licenses@.len() == 0,
            r.forbidden_licenses@.len() == 0,
            r.warn_on_copyleft,
            r.warn_on_unknown,
    {
        LicensePolicy {
            allowed_licenses: Vec::new(),
            forbidden_licenses: Vec::new(),
            warn_on_copyleft: true,
            warn_on_unknown: true,
        }
    }
}

/// Footprint risk thresholds.
#[derive(Clone, Copy, Debug, PartialEq, Eq, Structural)]
pub struct FootprintThresholds {
    /// Maximum acceptable transitive dependency count.
    pub max_transitive_deps: Option<u32>,
    /// Maximum acceptable footprint risk, in hundredths.
    pub max_footprint_risk: Option<u32>,
}

impl Default for FootprintThresholds {
    fn default() -> (r: FootprintThresholds)
        ensures
            r == (FootprintThresholds {
                max_transitive_deps: Some(100),
                max_footprint_risk: Some(80),
            }),
    {
        FootprintThresholds { max_transitive_deps: Some(100), max_footprint_risk: Some(80) }
    }
}

/// Network configuration for API calls.
#[derive(Clone, Debug)]
pub struct NetworkConfig {
    /// Request timeout in seconds.
    pub timeout_secs: u64,
    /// Maximum number of retries for failed requests.
    pub max_retries: u32,
    /// Delay between requests, in milliseconds.
    pub request_delay_ms: u64,
    /// Token for the first source host (optional, for higher rate limits).
    pub github_token: Option<String>,
    /// Token for the second source host (optional).
    pub gitlab_token: Option<String>,
}

impl Default for NetworkConfig {
    fn default() -> (r: NetworkConfig)
        ensures
            r.timeout_secs == 30,
            r.max_retries == 3,
            r.request_delay_ms == 100,
            r.github_token is None,
            r.gitlab_token is None,
    {
        NetworkConfig {
            timeout_secs: 30,
            max_retries: 3,
            request_delay_ms: 100,
            github_token: None,
            gitlab_token: None,
        }
    }
}

/// Main configuration for the audit process.
#[derive(Clone, Debug)]
pub struct AuditConfig {
    /// Scoring weights for the health calculation.
    pub scoring_weights: ScoringWeights,
    /// Thresholds for staleness detection.
    pub staleness_thresholds: StalenessThresholds,
    /// License policy.
    pub license_policy: LicensePolicy,
    /// Footprint risk thresholds.
    pub footprint_thresholds: FootprintThresholds,
    /// Network configuration.
    pub network: NetworkConfig,
    /// Names of dependencies to leave out of the audit.
    pub ignored_dependencies: Vec<String>,
}

impl Default for AuditConfig {
    fn default() -> (r: AuditConfig)
        ensures
            r.scoring_weights.sums_to_one(),
            r.staleness_thresholds.stale_days == 365,
            r.staleness_thresholds.risky_days == 730,
            r.ignored_dependencies@.len() == 0,
    {
        AuditConfig {
            scoring_weights: ScoringWeights::default(),
            staleness_thresholds: StalenessThresholds::default(),
            license_policy: LicensePolicy::default(),
            footprint_thresholds: FootprintThresholds::default(),
            network: NetworkConfig::default(),
            ignored_dependencies: Vec::new(),
        }
    }
}

pub assume_specification[ core::time::Duration::from_secs ](secs: u64) -> core::time::Duration;

pub assume_specification[ core::time::Duration::from_millis ](millis: u64) -> core::time::Duration;

impl NetworkConfig {
    /// The request timeout as a `Duration`.
    pub fn timeout(&self) -> core::time::Duration {
        core::time::Duration::from_secs(self.timeout_secs)
    }

    /// The delay between requests as a `Duration`.
    pub fn request_delay(&self) -> core::time::Duration {
        core::time::Duration::from_millis(self.request_delay_ms)
    }
}

impl AuditConfig {
    /// Create a new builder for `AuditConfig`.
    pub fn builder() -> (r: AuditConfigBuilder)
        ensures
            r.scoring_weights is None,
            r.staleness_thresholds is None,
            r.license_policy is None,
            r.footprint_thresholds is None,
            r.network is None,
            r.ignored_dependencies@.len() == 0,
    {
        AuditConfigBuilder::default()
    }
}

/// Builder for `AuditConfig`; what is not set takes its default.
#[derive(Clone, Debug)]
pub struct AuditConfigBuilder {
    pub scoring_weights: Option<ScoringWeights>,
    pub staleness_thresholds: Option<StalenessThresholds>,
    pub license_policy: Option<LicensePolicy>,
    pub footprint_thresholds: Option<FootprintThresholds>,
    pub network: Option<NetworkConfig>,
    pub ignored_dependencies: Vec<String>,
}

impl Default for AuditConfigBuilder {
    fn default() -> (r: AuditConfigBuilder)
        ensures
            r.scoring_weights is None,
            r.staleness_thresholds is None,
            r.license_policy is None,
            r.footprint_thresholds is None,
            r.network is None,
            r.ignored_dependencies@.len() == 0,
    {
        AuditConfigBuilder {
            scoring_weights: None,
            staleness_thresholds: None,
            license_policy: None,
            footprint_thresholds: None,
            network: None,
            ignored_dependencies: Vec::new(),
        }
    }
}

impl AuditConfigBuilder {
    pub fn scoring_weights(self, weights: ScoringWeights) -> (r: Self)
        ensures
            r.scoring_weights == Some(weights),
            r.staleness_thresholds == self.staleness_thresholds,
            r.license_policy == self.license_policy,
            r.footprint_thresholds == self.footprint_thresholds,
            r.network == self.network,
            r.ignored_dependencies == self.ignored_dependencies,
    {
        AuditConfigBuilder { scoring_weights: Some(weights), ..self }
    }

    pub fn staleness_thresholds(self, thresholds: StalenessThresholds) -> (r: Self)
        ensures
            r.staleness_thresholds == Some(thresholds),
            r.scoring_weights == self.scoring_weights,
            r.license_policy == self.license_policy,
            r.footprint_thresholds == self.footprint_thresholds,
            r.network == self.network,
            r.ignored_dependencies == self.ignored_dependencies,
    {
        AuditConfigBuilder { staleness_thresholds: Some(thresholds), ..self }
    }

    pub fn license_policy(self, policy: LicensePolicy) -> (r: Self)
        ensures
            r.license_policy == Some(policy),
            r.scoring_weights == self.scoring_weights,
            r.staleness_thresholds == self.staleness_thresholds,
            r.footprint_thresholds == self.footprint_thresholds,
            r.network == self.network,
            r.ignored_dependencies == self.ignored_dependencies,
    {
        AuditConfigBuilder { license_policy: Some(policy), ..self }
    }

    pub fn footprint_thresholds(self, thresholds: FootprintThresholds) -> (r: Self)
        ensures
            r.footprint_thresholds == Some(thresholds),
            r.scoring_weights == self.scoring_weights,
            r.staleness_thresholds == self.staleness_thresholds,
            r.license_policy == self.license_policy,
            r.network == self.network,
            r.ignored_dependencies == self.ignored_dependencies,
    {
        AuditConfigBuilder { footprint_thresholds: Some(thresholds), ..self }
    }

    pub fn network(self, network: NetworkConfig) -> (r: Self)
        ensures
            r.network == Some(network),
            r.scoring_weights == self.scoring_weights,
            r.staleness_thresholds == self.staleness_thresholds,
            r.license_policy == self.license_policy,
            r.footprint_thresholds == self.footprint_thresholds,
            r.ignored_dependencies == self.ignored_dependencies,
    {
        AuditConfigBuilder { network: Some(network), ..self }
    }

    /// Add a dependency name to the ignore list (once).
    pub fn ignore_dependency(self, name: String) -> (r: Self)
        ensures
            crate::audit::is_ignored(name@, self.ignored_dependencies@) ==> r.ignored_dependencies
                == self.ignored_dependencies,
            !crate::audit::is_ignored(name@, self.ignored_dependencies@) ==> r.ignored_dependencies@
                == self.ignored_dependencies@.push(name),
            r.scoring_weights == self.scoring_weights,
            r.staleness_thresholds == self.staleness_thresholds,
            r.license_policy == self.license_policy,
            r.footprint_thresholds == self.footprint_thresholds,
            r.network == self.network,
    {
        let mut b = self;
        if !crate::audit::ignored_name(name.as_str(), &b.ignored_dependencies) {
            b.ignored_dependencies.push(name);
        }
        b
    }

    /// Build the configuration, with defaults for what was not set.
    pub fn build(self) -> (r: AuditConfig)
        ensures
            self.scoring_weights matches Some(w) ==> r.scoring_weights == w,
            self.scoring_weights is None ==> r.scoring_weights.sums_to_one(),
            self.staleness_thresholds matches Some(t) ==> r.staleness_thresholds == t,
            self.footprint_thresholds matches Some(t) ==> r.footprint_thresholds == t,
            self.license_policy matches Some(p) ==> r.license_policy == p,
            self.network matches Some(n) ==> r.network == n,
            r.ignored_dependencies == self.ignored_dependencies,
    {
        AuditConfig {
            scoring_weights: match self.scoring_weights {
                Some(w) => w,
                None => ScoringWeights::default(),
            },
            staleness_thresholds: match self.staleness_thresholds {
                Some(t) => t,
                None => StalenessThresholds::default(),
            },
            license_policy: match self.license_policy {
                Some(p) => p,
                None => LicensePolicy::default(),
            },
            footprint_thresholds: match self.footprint_thresholds {
                Some(t) => t,
                None => FootprintThresholds::default(),
            },
            network: match self.network {
                Some(n) => n,
                None => NetworkConfig::default(),
            },
            ignored_dependencies: self.ignored_dependencies,
        }
    }
}

} // verus!
