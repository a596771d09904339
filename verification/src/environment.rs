//! Optional run-context metadata: identity of the app, build, repository
//! and host a run came from. Every field is optional.

use vstd::prelude::*;
use crate::codec::{
    collect_extras, dec_opt_str, enc_opt_str, extras_of, get_opt_str, push_extras, push_opt_str,
    strs_set, DecodeError,
};
use crate::extra::{Extra, Extras};
use crate::json::{obj_lookup, pairs_view, view_opt_str, JVal, Json};

verus! {

/// The run context. All fields are optional; an all-absent Environment is
/// representable and encodes to an empty record.
pub struct Environment {
    pub report_name: Option<String>,
    pub app_name: Option<String>,
    pub app_version: Option<String>,
    pub build_name: Option<String>,
    pub build_number: Option<String>,
    pub build_url: Option<String>,
    pub repository_name: Option<String>,
    pub repository_url: Option<String>,
    pub commit: Option<String>,
    pub branch_name: Option<String>,
    pub os_platform: Option<String>,
    pub os_release: Option<String>,
    pub os_version: Option<String>,
    pub test_environment: Option<String>,
    extra: Extras,
}

/// The model of an [`Environment`].
#[verifier::ext_equal]
pub struct EnvironmentView {
    pub report_name: Option<Seq<char>>,
    pub app_name: Option<Seq<char>>,
    pub app_version: Option<Seq<char>>,
    pub build_name: Option<Seq<char>>,
    pub build_number: Option<Seq<char>>,
    pub build_url: Option<Seq<char>>,
    pub repository_name: Option<Seq<char>>,
    pub repository_url: Option<Seq<char>>,
    pub commit: Option<Seq<char>>,
    pub branch_name: Option<Seq<char>>,
    pub os_platform: Option<Seq<char>>,
    pub os_release: Option<Seq<char>>,
    pub os_version: Option<Seq<char>>,
    pub test_environment: Option<Seq<char>>,
    pub extra: Seq<(Seq<char>, JVal)>,
}

impl View for Environment {
    type V = EnvironmentView;

    closed spec fn view(&self) -> EnvironmentView {
        EnvironmentView {
            report_name: view_opt_str(self.report_name),
            app_name: view_opt_str(self.app_name),
            app_version: view_opt_str(self.app_version),
            build_name: view_opt_str(self.build_name),
            build_url: view_opt_str(self.build_url),
            build_number: view_opt_str(self.build_number),
            repository_name: view_opt_str(self.repository_name),
            repository_url: view_opt_str(self.repository_url),
            commit: view_opt_str(self.commit),
            branch_name: view_opt_str(self.branch_name),
            os_platform: view_opt_str(self.os_platform),
            os_release: view_opt_str(self.os_release),
            os_version: view_opt_str(self.os_version),
            test_environment: view_opt_str(self.test_environment),
            extra: self.extra@,
        }
    }
}

/// An all-absent environment model.
pub open spec fn empty_environment() -> EnvironmentView {
    EnvironmentView {
        report_name: None,
        app_name: None,
        app_version: None,
        build_name: None,
        build_number: None,
        build_url: None,
        repository_name: None,
        repository_url: None,
        commit: None,
        branch_name: None,
        os_platform: None,
        os_release: None,
        os_version: None,
        test_environment: None,
        extra: Seq::empty(),
    }
}

impl Environment {
    /// The structural invariant: the extension slot has unique keys.
    pub open spec fn wf(&self) -> bool {
        crate::extra::unique_keys(self@.extra)
    }

    /// Creates an environment with every field absent.
    pub fn new() -> (r: Environment)
        ensures
            r@ == empty_environment(),
            r.wf(),
    {
        let r = Environment {
            report_name: None,
            app_name: None,
            app_version: None,
            build_name: None,
            build_number: None,
            build_url: None,
            repository_name: None,
            repository_url: None,
            commit: None,
            branch_name: None,
            os_platform: None,
            os_release: None,
            os_version: None,
            test_environment: None,
            extra: Extras::new(),
        };
        proof {
            assert(r@.extra =~= Seq::<(Seq<char>, JVal)>::empty());
        }
        r
    }

    /// The extension slot's members, in insertion order.
    pub fn extra(&self) -> (r: &Extras)
        ensures
            r@ == self@.extra,
    {
        &self.extra
    }
}

impl Default for Environment {
    /// Same as [`Environment::new`]: every field absent.
    fn default() -> (r: Environment)
        ensures
            r@ == empty_environment(),
            r.wf(),
    {
        Environment::new()
    }
}

impl Extra for Environment {
    open spec fn extra_view(&self) -> Seq<(Seq<char>, JVal)> {
        self@.extra
    }

    open spec fn extra_wf(&self) -> bool {
        self.wf()
    }

    fn insert_extra(&mut self, key: String, value: Json) -> (prev: Option<Json>)
        ensures
            final(self)@ == (EnvironmentView { extra: final(self)@.extra, ..old(self)@ }),
    {
        self.extra.insert(key, value)
    }

    fn remove_extra(&mut self, key: &str) -> (prev: Option<Json>)
        ensures
            final(self)@ == (EnvironmentView { extra: final(self)@.extra, ..old(self)@ }),
    {
        self.extra.remove(key)
    }
}


/// The typed wire keys of an environment record.
pub open spec fn environment_typed_keys() -> Set<Seq<char>> {
    Set::new(
        |s: Seq<char>|
            s == "reportName"@ || s == "appName"@ || s == "appVersion"@ || s == "buildName"@ || s
                == "buildNumber"@ || s == "buildUrl"@ || s == "repositoryName"@ || s
                == "repositoryUrl"@ || s == "commit"@ || s == "branchName"@ || s == "osPlatform"@
                || s == "osRelease"@ || s == "osVersion"@ || s == "testEnvironment"@,
    )
}

/// The members of an encoded environment record, in wire order; absent
/// fields are omitted.
pub open spec fn environment_pairs(v: EnvironmentView) -> Seq<(Seq<char>, JVal)> {
    enc_opt_str("reportName"@, v.report_name) + enc_opt_str("appName"@, v.app_name) + enc_opt_str(
        "appVersion"@,
        v.app_version,
    ) + enc_opt_str("buildName"@, v.build_name) + enc_opt_str("buildNumber"@, v.build_number)
        + enc_opt_str("buildUrl"@, v.build_url) + enc_opt_str("repositoryName"@, v.repository_name)
        + enc_opt_str("repositoryUrl"@, v.repository_url) + enc_opt_str("commit"@, v.commit)
        + enc_opt_str("branchName"@, v.branch_name) + enc_opt_str("osPlatform"@, v.os_platform)
        + enc_opt_str("osRelease"@, v.os_release) + enc_opt_str("osVersion"@, v.os_version)
        + enc_opt_str("testEnvironment"@, v.test_environment) + v.extra
}

/// The encoded form of an environment record.
pub open spec fn environment_jval(v: EnvironmentView) -> JVal {
    JVal::Obj(environment_pairs(v))
}

/// The environment a document value decodes to, when every present typed
/// member is a string.
pub open spec fn environment_from_pairs(p: Seq<(Seq<char>, JVal)>) -> Option<EnvironmentView> {
    if dec_opt_str(p, "reportName"@) is Some && dec_opt_str(p, "appName"@) is Some && dec_opt_str(
        p,
        "appVersion"@,
    ) is Some && dec_opt_str(p, "buildName"@) is Some && dec_opt_str(p, "buildNumber"@) is Some
        && dec_opt_str(p, "buildUrl"@) is Some && dec_opt_str(p, "repositoryName"@) is Some
        && dec_opt_str(p, "repositoryUrl"@) is Some && dec_opt_str(p, "commit"@) is Some
        && dec_opt_str(p, "branchName"@) is Some && dec_opt_str(p, "osPlatform"@) is Some
        && dec_opt_str(p, "osRelease"@) is Some && dec_opt_str(p, "osVersion"@) is Some
        && dec_opt_str(p, "testEnvironment"@) is Some {
        Some(
            EnvironmentView {
                report_name: dec_opt_str(p, "reportName"@)->Some_0,
                app_name: dec_opt_str(p, "appName"@)->Some_0,
                app_version: dec_opt_str(p, "appVersion"@)->Some_0,
                build_name: dec_opt_str(p, "buildName"@)->Some_0,
                build_number: dec_opt_str(p, "buildNumber"@)->Some_0,
                build_url: dec_opt_str(p, "buildUrl"@)->Some_0,
                repository_name: dec_opt_str(p, "repositoryName"@)->Some_0,
                repository_url: dec_opt_str(p, "repositoryUrl"@)->Some_0,
                commit: dec_opt_str(p, "commit"@)->Some_0,
                branch_name: dec_opt_str(p, "branchName"@)->Some_0,
                os_platform: dec_opt_str(p, "osPlatform"@)->Some_0,
                os_release: dec_opt_str(p, "osRelease"@)->Some_0,
                os_version: dec_opt_str(p, "osVersion"@)->Some_0,
                test_environment: dec_opt_str(p, "testEnvironment"@)->Some_0,
                extra: extras_of(p, environment_typed_keys()),
            },
        )
    } else {
        None
    }
}

/// The environment a document value decodes to, when it is a well-shaped
/// object.
pub open spec fn environment_from_json(v: JVal) -> Option<EnvironmentView> {
    match v {
        JVal::Obj(p) => environment_from_pairs(p),
        _ => None,
    }
}

impl Environment {
    /// Encodes the environment as a document value: the typed fields in
    /// wire order, absent fields omitted, extension members inlined after.
    pub fn to_json(&self) -> (r: Json)
        ensures
            r@ == environment_jval(self@),
    {
        let mut out: Vec<(String, Json)> = Vec::new();
        push_opt_str(&mut out, "reportName", &self.report_name);
        push_opt_str(&mut out, "appName", &self.app_name);
        push_opt_str(&mut out, "appVersion", &self.app_version);
        push_opt_str(&mut out, "buildName", &self.build_name);
        push_opt_str(&mut out, "buildNumber", &self.build_number);
        push_opt_str(&mut out, "buildUrl", &self.build_url);
        push_opt_str(&mut out, "repositoryName", &self.repository_name);
        push_opt_str(&mut out, "repositoryUrl", &self.repository_url);
        push_opt_str(&mut out, "commit", &self.commit);
        push_opt_str(&mut out, "branchName", &self.branch_name);
        push_opt_str(&mut out, "osPlatform", &self.os_platform);
        push_opt_str(&mut out, "osRelease", &self.os_release);
        push_opt_str(&mut out, "osVersion", &self.os_version);
        push_opt_str(&mut out, "testEnvironment", &self.test_environment);
        push_extras(&mut out, &self.extra);
        let r = Json::Obj(out);
        proof {
            crate::json::lemma_json_view(r);
            assert(pairs_view(out@) =~= environment_pairs(self@));
        }
        r
    }

    /// Decodes an environment from a document value: the exact inverse
    /// of the shape [`environment_from_json`] describes, every unknown
    /// sibling key routed into the extension slot.
    pub fn from_json(j: &Json) -> (r: Result<Environment, DecodeError>)
        ensures
            match r {
                Ok(v) => environment_from_json(j@) == Some(v@) && v.wf(),
                Err(_) => environment_from_json(j@) is None,
            },
    {
        let pairs = match j {
            Json::Obj(p) => p,
            _ => {
                return Err(DecodeError::Field(String::from_str("environment")));
            },
        };
        let ghost pv = pairs_view(pairs@);
        proof {
            crate::json::lemma_json_view(*j);
        }
        let report_name = match get_opt_str(pairs, "reportName") {
            Ok(v) => v,
            Err(_) => {
                return Err(DecodeError::Field(String::from_str("reportName")));
            },
        };
        let app_name = match get_opt_str(pairs, "appName") {
            Ok(v) => v,
            Err(_) => {
                return Err(DecodeError::Field(String::from_str("appName")));
            },
        };
        let app_version = match get_opt_str(pairs, "appVersion") {
            Ok(v) => v,
            Err(_) => {
                return Err(DecodeError::Field(String::from_str("appVersion")));
            },
        };
        let build_name = match get_opt_str(pairs, "buildName") {
            Ok(v) => v,
            Err(_) => {
                return Err(DecodeError::Field(String::from_str("buildName")));
            },
        };
        let build_number = match get_opt_str(pairs, "buildNumber") {
            Ok(v) => v,
            Err(_) => {
                return Err(DecodeError::Field(String::from_str("buildNumber")));
            },
        };
        let build_url = match get_opt_str(pairs, "buildUrl") {
            Ok(v) => v,
            Err(_) => {
                return Err(DecodeError::Field(String::from_str("buildUrl")));
            },
        };
        let repository_name = match get_opt_str(pairs, "repositoryName") {
            Ok(v) => v,
            Err(_) => {
                return Err(DecodeError::Field(String::from_str("repositoryName")));
            },
        };
        let repository_url = match get_opt_str(pairs, "repositoryUrl") {
            Ok(v) => v,
            Err(_) => {
                return Err(DecodeError::Field(String::from_str("repositoryUrl")));
            },
        };
        let commit = match get_opt_str(pairs, "commit") {
            Ok(v) => v,
            Err(_) => {
                return Err(DecodeError::Field(String::from_str("commit")));
            },
        };
        let branch_name = match get_opt_str(pairs, "branchName") {
            Ok(v) => v,
            Err(_) => {
                return Err(DecodeError::Field(String::from_str("branchName")));
            },
        };
        let os_platform = match get_opt_str(pairs, "osPlatform") {
            Ok(v) => v,
            Err(_) => {
                return Err(DecodeError::Field(String::from_str("osPlatform")));
            },
        };
        let os_release = match get_opt_str(pairs, "osRelease") {
            Ok(v) => v,
            Err(_) => {
                return Err(DecodeError::Field(String::from_str("osRelease")));
            },
        };
        let os_version = match get_opt_str(pairs, "osVersion") {
            Ok(v) => v,
            Err(_) => {
                return Err(DecodeError::Field(String::from_str("osVersion")));
            },
        };
        let test_environment = match get_opt_str(pairs, "testEnvironment") {
            Ok(v) => v,
            Err(_) => {
                return Err(DecodeError::Field(String::from_str("testEnvironment")));
            },
        };
        let mut typed: Vec<&str> = Vec::new();
        typed.push("reportName");
        typed.push("appName");
        typed.push("appVersion");
        typed.push("buildName");
        typed.push("buildNumber");
        typed.push("buildUrl");
        typed.push("repositoryName");
        typed.push("repositoryUrl");
        typed.push("commit");
        typed.push("branchName");
        typed.push("osPlatform");
        typed.push("osRelease");
        typed.push("osVersion");
        typed.push("testEnvironment");
        proof {
            assert forall|s: Seq<char>| strs_set(typed@).contains(s)
                implies environment_typed_keys().contains(s) by {
                let i = choose|i: int| 0 <= i < typed@.len() && typed@[i]@ == s;
            }
            assert forall|s: Seq<char>| environment_typed_keys().contains(s) implies strs_set(
                typed@,
            ).contains(s) by {
                if s == "reportName"@ {
                    assert(typed@[0]@ == s);
                } else if s == "appName"@ {
                    assert(typed@[1]@ == s);
                } else if s == "appVersion"@ {
                    assert(typed@[2]@ == s);
                } else if s == "buildName"@ {
                    assert(typed@[3]@ == s);
                } else if s == "buildNumber"@ {
                    assert(typed@[4]@ == s);
                } else if s == "buildUrl"@ {
                    assert(typed@[5]@ == s);
                } else if s == "repositoryName"@ {
                    assert(typed@[6]@ == s);
                } else if s == "repositoryUrl"@ {
                    assert(typed@[7]@ == s);
                } else if s == "commit"@ {
                    assert(typed@[8]@ == s);
                } else if s == "branchName"@ {
                    assert(typed@[9]@ == s);
                } else if s == "osPlatform"@ {
                    assert(typed@[10]@ == s);
                } else if s == "osRelease"@ {
                    assert(typed@[11]@ == s);
                } else if s == "osVersion"@ {
                    assert(typed@[12]@ == s);
                } else {
                    assert(typed@[13]@ == s);
                }
            }
            assert(strs_set(typed@) =~= environment_typed_keys());
        }
        let extra = collect_extras(pairs, typed.as_slice());
        let v = Environment {
            report_name,
            app_name,
            app_version,
            build_name,
            build_number,
            build_url,
            repository_name,
            repository_url,
            commit,
            branch_name,
            os_platform,
            os_release,
            os_version,
            test_environment,
            extra,
        };
        proof {
            assert(environment_from_json(j@) == Some(v@)) by {
                assert(environment_from_pairs(pv) matches Some(w) && w =~= v@);
            }
        }
        Ok(v)
    }
}


/// Where the `reportName` member stands in an encoded environment.
#[verifier::rlimit(60)]
#[verifier::spinoff_prover]
proof fn lemma_env_lookup_report_name(v: EnvironmentView)
    requires
        forall|j: int| 0 <= j < v.extra.len() ==> !environment_typed_keys().contains(
            (#[trigger] v.extra[j]).0,
        ),
    ensures
        dec_opt_str(environment_pairs(v), "reportName"@) == Some(v.report_name),
{
    reveal_strlit("reportName");
    reveal_strlit("appName");
    reveal_strlit("appVersion");
    reveal_strlit("buildName");
    reveal_strlit("buildNumber");
    reveal_strlit("buildUrl");
    reveal_strlit("repositoryName");
    reveal_strlit("repositoryUrl");
    reveal_strlit("commit");
    reveal_strlit("branchName");
    reveal_strlit("osPlatform");
    reveal_strlit("osRelease");
    reveal_strlit("osVersion");
    reveal_strlit("testEnvironment");
    assert("appName"@ != "reportName"@) by {
        assert("appName"@.len() == 7 && "reportName"@.len() == 10);
    }
    assert("appVersion"@ != "reportName"@) by {
        assert("appVersion"@[0] != "reportName"@[0]);
    }
    assert("buildName"@ != "reportName"@) by {
        assert("buildName"@.len() == 9 && "reportName"@.len() == 10);
    }
    assert("buildNumber"@ != "reportName"@) by {
        assert("buildNumber"@.len() == 11 && "reportName"@.len() == 10);
    }
    assert("buildUrl"@ != "reportName"@) by {
        assert("buildUrl"@.len() == 8 && "reportName"@.len() == 10);
    }
    assert("repositoryName"@ != "reportName"@) by {
        assert("repositoryName"@.len() == 14 && "reportName"@.len() == 10);
    }
    assert("repositoryUrl"@ != "reportName"@) by {
        assert("repositoryUrl"@.len() == 13 && "reportName"@.len() == 10);
    }
    assert("commit"@ != "reportName"@) by {
        assert("commit"@.len() == 6 && "reportName"@.len() == 10);
    }
    assert("branchName"@ != "reportName"@) by {
        assert("branchName"@[0] != "reportName"@[0]);
    }
    assert("osPlatform"@ != "reportName"@) by {
        assert("osPlatform"@[0] != "reportName"@[0]);
    }
    assert("osRelease"@ != "reportName"@) by {
        assert("osRelease"@.len() == 9 && "reportName"@.len() == 10);
    }
    assert("osVersion"@ != "reportName"@) by {
        assert("osVersion"@.len() == 9 && "reportName"@.len() == 10);
    }
    assert("testEnvironment"@ != "reportName"@) by {
        assert("testEnvironment"@.len() == 15 && "reportName"@.len() == 10);
    }
    let a1 = enc_opt_str("reportName"@, v.report_name);
    let a2 = a1 + enc_opt_str("appName"@, v.app_name);
    let a3 = a2 + enc_opt_str("appVersion"@, v.app_version);
    let a4 = a3 + enc_opt_str("buildName"@, v.build_name);
    let a5 = a4 + enc_opt_str("buildNumber"@, v.build_number);
    let a6 = a5 + enc_opt_str("buildUrl"@, v.build_url);
    let a7 = a6 + enc_opt_str("repositoryName"@, v.repository_name);
    let a8 = a7 + enc_opt_str("repositoryUrl"@, v.repository_url);
    let a9 = a8 + enc_opt_str("commit"@, v.commit);
    let a10 = a9 + enc_opt_str("branchName"@, v.branch_name);
    let a11 = a10 + enc_opt_str("osPlatform"@, v.os_platform);
    let a12 = a11 + enc_opt_str("osRelease"@, v.os_release);
    let a13 = a12 + enc_opt_str("osVersion"@, v.os_version);
    let a14 = a13 + enc_opt_str("testEnvironment"@, v.test_environment);
    assert(environment_pairs(v) == a14 + v.extra);
    crate::codec::lemma_lookup_concat(a14, v.extra, "reportName"@);
    crate::codec::lemma_lookup_concat(a13, enc_opt_str("testEnvironment"@, v.test_environment), "reportName"@);
    crate::codec::lemma_lookup_concat(a12, enc_opt_str("osVersion"@, v.os_version), "reportName"@);
    crate::codec::lemma_lookup_concat(a11, enc_opt_str("osRelease"@, v.os_release), "reportName"@);
    crate::codec::lemma_lookup_concat(a10, enc_opt_str("osPlatform"@, v.os_platform), "reportName"@);
    crate::codec::lemma_lookup_concat(a9, enc_opt_str("branchName"@, v.branch_name), "reportName"@);
    crate::codec::lemma_lookup_concat(a8, enc_opt_str("commit"@, v.commit), "reportName"@);
    crate::codec::lemma_lookup_concat(a7, enc_opt_str("repositoryUrl"@, v.repository_url), "reportName"@);
    crate::codec::lemma_lookup_concat(a6, enc_opt_str("repositoryName"@, v.repository_name), "reportName"@);
    crate::codec::lemma_lookup_concat(a5, enc_opt_str("buildUrl"@, v.build_url), "reportName"@);
    crate::codec::lemma_lookup_concat(a4, enc_opt_str("buildNumber"@, v.build_number), "reportName"@);
    crate::codec::lemma_lookup_concat(a3, enc_opt_str("buildName"@, v.build_name), "reportName"@);
    crate::codec::lemma_lookup_concat(a2, enc_opt_str("appVersion"@, v.app_version), "reportName"@);
    crate::codec::lemma_lookup_concat(a1, enc_opt_str("appName"@, v.app_name), "reportName"@);
    crate::codec::lemma_lookup_opt_seg("reportName"@, v.report_name, "reportName"@);
    crate::codec::lemma_lookup_opt_seg("appName"@, v.app_name, "reportName"@);
    crate::codec::lemma_lookup_opt_seg("appVersion"@, v.app_version, "reportName"@);
    crate::codec::lemma_lookup_opt_seg("buildName"@, v.build_name, "reportName"@);
    crate::codec::lemma_lookup_opt_seg("buildNumber"@, v.build_number, "reportName"@);
    crate::codec::lemma_lookup_opt_seg("buildUrl"@, v.build_url, "reportName"@);
    crate::codec::lemma_lookup_opt_seg("repositoryName"@, v.repository_name, "reportName"@);
    crate::codec::lemma_lookup_opt_seg("repositoryUrl"@, v.repository_url, "reportName"@);
    crate::codec::lemma_lookup_opt_seg("commit"@, v.commit, "reportName"@);
    crate::codec::lemma_lookup_opt_seg("branchName"@, v.branch_name, "reportName"@);
    crate::codec::lemma_lookup_opt_seg("osPlatform"@, v.os_platform, "reportName"@);
    crate::codec::lemma_lookup_opt_seg("osRelease"@, v.os_release, "reportName"@);
    crate::codec::lemma_lookup_opt_seg("osVersion"@, v.os_version, "reportName"@);
    crate::codec::lemma_lookup_opt_seg("testEnvironment"@, v.test_environment, "reportName"@);
    assert forall|j: int| 0 <= j < v.extra.len() implies (#[trigger] v.extra[j]).0 != "reportName"@ by {
        assert(environment_typed_keys().contains("reportName"@));
    }
    crate::extra::lemma_lookup_absent(v.extra, "reportName"@);
}

/// Where the `appName` member stands in an encoded environment.
#[verifier::rlimit(60)]
#[verifier::spinoff_prover]
proof fn lemma_env_lookup_app_name(v: EnvironmentView)
    requires
        forall|j: int| 0 <= j < v.extra.len() ==> !environment_typed_keys().contains(
            (#[trigger] v.extra[j]).0,
        ),
    ensures
        dec_opt_str(environment_pairs(v), "appName"@) == Some(v.app_name),
{
    reveal_strlit("appName");
    reveal_strlit("reportName");
    reveal_strlit("appVersion");
    reveal_strlit("buildName");
    reveal_strlit("buildNumber");
    reveal_strlit("buildUrl");
    reveal_strlit("repositoryName");
    reveal_strlit("repositoryUrl");
    reveal_strlit("commit");
    reveal_strlit("branchName");
    reveal_strlit("osPlatform");
    reveal_strlit("osRelease");
    reveal_strlit("osVersion");
    reveal_strlit("testEnvironment");
    assert("reportName"@ != "appName"@) by {
        assert("reportName"@.len() == 10 && "appName"@.len() == 7);
    }
    assert("appVersion"@ != "appName"@) by {
        assert("appVersion"@.len() == 10 && "appName"@.len() == 7);
    }
    assert("buildName"@ != "appName"@) by {
        assert("buildName"@.len() == 9 && "appName"@.len() == 7);
    }
    assert("buildNumber"@ != "appName"@) by {
        assert("buildNumber"@.len() == 11 && "appName"@.len() == 7);
    }
    assert("buildUrl"@ != "appName"@) by {
        assert("buildUrl"@.len() == 8 && "appName"@.len() == 7);
    }
    assert("repositoryName"@ != "appName"@) by {
        assert("repositoryName"@.len() == 14 && "appName"@.len() == 7);
    }
    assert("repositoryUrl"@ != "appName"@) by {
        assert("repositoryUrl"@.len() == 13 && "appName"@.len() == 7);
    }
    assert("commit"@ != "appName"@) by {
        assert("commit"@.len() == 6 && "appName"@.len() == 7);
    }
    assert("branchName"@ != "appName"@) by {
        assert("branchName"@.len() == 10 && "appName"@.len() == 7);
    }
    assert("osPlatform"@ != "appName"@) by {
        assert("osPlatform"@.len() == 10 && "appName"@.len() == 7);
    }
    assert("osRelease"@ != "appName"@) by {
        assert("osRelease"@.len() == 9 && "appName"@.len() == 7);
    }
    assert("osVersion"@ != "appName"@) by {
        assert("osVersion"@.len() == 9 && "appName"@.len() == 7);
    }
    assert("testEnvironment"@ != "appName"@) by {
        assert("testEnvironment"@.len() == 15 && "appName"@.len() == 7);
    }
    let a1 = enc_opt_str("reportName"@, v.report_name);
    let a2 = a1 + enc_opt_str("appName"@, v.app_name);
    let a3 = a2 + enc_opt_str("appVersion"@, v.app_version);
    let a4 = a3 + enc_opt_str("buildName"@, v.build_name);
    let a5 = a4 + enc_opt_str("buildNumber"@, v.build_number);
    let a6 = a5 + enc_opt_str("buildUrl"@, v.build_url);
    let a7 = a6 + enc_opt_str("repositoryName"@, v.repository_name);
    let a8 = a7 + enc_opt_str("repositoryUrl"@, v.repository_url);
    let a9 = a8 + enc_opt_str("commit"@, v.commit);
    let a10 = a9 + enc_opt_str("branchName"@, v.branch_name);
    let a11 = a10 + enc_opt_str("osPlatform"@, v.os_platform);
    let a12 = a11 + enc_opt_str("osRelease"@, v.os_release);
    let a13 = a12 + enc_opt_str("osVersion"@, v.os_version);
    let a14 = a13 + enc_opt_str("testEnvironment"@, v.test_environment);
    assert(environment_pairs(v) == a14 + v.extra);
    crate::codec::lemma_lookup_concat(a14, v.extra, "appName"@);
    crate::codec::lemma_lookup_concat(a13, enc_opt_str("testEnvironment"@, v.test_environment), "appName"@);
    crate::codec::lemma_lookup_concat(a12, enc_opt_str("osVersion"@, v.os_version), "appName"@);
    crate::codec::lemma_lookup_concat(a11, enc_opt_str("osRelease"@, v.os_release), "appName"@);
    crate::codec::lemma_lookup_concat(a10, enc_opt_str("osPlatform"@, v.os_platform), "appName"@);
    crate::codec::lemma_lookup_concat(a9, enc_opt_str("branchName"@, v.branch_name), "appName"@);
    crate::codec::lemma_lookup_concat(a8, enc_opt_str("commit"@, v.commit), "appName"@);
    crate::codec::lemma_lookup_concat(a7, enc_opt_str("repositoryUrl"@, v.repository_url), "appName"@);
    crate::codec::lemma_lookup_concat(a6, enc_opt_str("repositoryName"@, v.repository_name), "appName"@);
    crate::codec::lemma_lookup_concat(a5, enc_opt_str("buildUrl"@, v.build_url), "appName"@);
    crate::codec::lemma_lookup_concat(a4, enc_opt_str("buildNumber"@, v.build_number), "appName"@);
    crate::codec::lemma_lookup_concat(a3, enc_opt_str("buildName"@, v.build_name), "appName"@);
    crate::codec::lemma_lookup_concat(a2, enc_opt_str("appVersion"@, v.app_version), "appName"@);
    crate::codec::lemma_lookup_concat(a1, enc_opt_str("appName"@, v.app_name), "appName"@);
    crate::codec::lemma_lookup_opt_seg("reportName"@, v.report_name, "appName"@);
    crate::codec::lemma_lookup_opt_seg("appName"@, v.app_name, "appName"@);
    crate::codec::lemma_lookup_opt_seg("appVersion"@, v.app_version, "appName"@);
    crate::codec::lemma_lookup_opt_seg("buildName"@, v.build_name, "appName"@);
    crate::codec::lemma_lookup_opt_seg("buildNumber"@, v.build_number, "appName"@);
    crate::codec::lemma_lookup_opt_seg("buildUrl"@, v.build_url, "appName"@);
    crate::codec::lemma_lookup_opt_seg("repositoryName"@, v.repository_name, "appName"@);
    crate::codec::lemma_lookup_opt_seg("repositoryUrl"@, v.repository_url, "appName"@);
    crate::codec::lemma_lookup_opt_seg("commit"@, v.commit, "appName"@);
    crate::codec::lemma_lookup_opt_seg("branchName"@, v.branch_name, "appName"@);
    crate::codec::lemma_lookup_opt_seg("osPlatform"@, v.os_platform, "appName"@);
    crate::codec::lemma_lookup_opt_seg("osRelease"@, v.os_release, "appName"@);
    crate::codec::lemma_lookup_opt_seg("osVersion"@, v.os_version, "appName"@);
    crate::codec::lemma_lookup_opt_seg("testEnvironment"@, v.test_environment, "appName"@);
    assert forall|j: int| 0 <= j < v.extra.len() implies (#[trigger] v.extra[j]).0 != "appName"@ by {
        assert(environment_typed_keys().contains("appName"@));
    }
    crate::extra::lemma_lookup_absent(v.extra, "appName"@);
}

/// Where the `appVersion` member stands in an encoded environment.
#[verifier::rlimit(60)]
#[verifier::spinoff_prover]
proof fn lemma_env_lookup_app_version(v: EnvironmentView)
    requires
        forall|j: int| 0 <= j < v.extra.len() ==> !environment_typed_keys().contains(
            (#[trigger] v.extra[j]).0,
        ),
    ensures
        dec_opt_str(environment_pairs(v), "appVersion"@) == Some(v.app_version),
{
    reveal_strlit("appVersion");
    reveal_strlit("reportName");
    reveal_strlit("appName");
    reveal_strlit("buildName");
    reveal_strlit("buildNumber");
    reveal_strlit("buildUrl");
    reveal_strlit("repositoryName");
    reveal_strlit("repositoryUrl");
    reveal_strlit("commit");
    reveal_strlit("branchName");
    reveal_strlit("osPlatform");
    reveal_strlit("osRelease");
    reveal_strlit("osVersion");
    reveal_strlit("testEnvironment");
    assert("reportName"@ != "appVersion"@) by {
        assert("reportName"@[0] != "appVersion"@[0]);
    }
    assert("appName"@ != "appVersion"@) by {
        assert("appName"@.len() == 7 && "appVersion"@.len() == 10);
    }
    assert("buildName"@ != "appVersion"@) by {
        assert("buildName"@.len() == 9 && "appVersion"@.len() == 10);
    }
    assert("buildNumber"@ != "appVersion"@) by {
        assert("buildNumber"@.len() == 11 && "appVersion"@.len() == 10);
    }
    assert("buildUrl"@ != "appVersion"@) by {
        assert("buildUrl"@.len() == 8 && "appVersion"@.len() == 10);
    }
    assert("repositoryName"@ != "appVersion"@) by {
        assert("repositoryName"@.len() == 14 && "appVersion"@.len() == 10);
    }
    assert("repositoryUrl"@ != "appVersion"@) by {
        assert("repositoryUrl"@.len() == 13 && "appVersion"@.len() == 10);
    }
    assert("commit"@ != "appVersion"@) by {
        assert("commit"@.len() == 6 && "appVersion"@.len() == 10);
    }
    assert("branchName"@ != "appVersion"@) by {
        assert("branchName"@[0] != "appVersion"@[0]);
    }
    assert("osPlatform"@ != "appVersion"@) by {
        assert("osPlatform"@[0] != "appVersion"@[0]);
    }
    assert("osRelease"@ != "appVersion"@) by {
        assert("osRelease"@.len() == 9 && "appVersion"@.len() == 10);
    }
    assert("osVersion"@ != "appVersion"@) by {
        assert("osVersion"@.len() == 9 && "appVersion"@.len() == 10);
    }
    assert("testEnvironment"@ != "appVersion"@) by {
        assert("testEnvironment"@.len() == 15 && "appVersion"@.len() == 10);
    }
    let a1 = enc_opt_str("reportName"@, v.report_name);
    let a2 = a1 + enc_opt_str("appName"@, v.app_name);
    let a3 = a2 + enc_opt_str("appVersion"@, v.app_version);
    let a4 = a3 + enc_opt_str("buildName"@, v.build_name);
    let a5 = a4 + enc_opt_str("buildNumber"@, v.build_number);
    let a6 = a5 + enc_opt_str("buildUrl"@, v.build_url);
    let a7 = a6 + enc_opt_str("repositoryName"@, v.repository_name);
    let a8 = a7 + enc_opt_str("repositoryUrl"@, v.repository_url);
    let a9 = a8 + enc_opt_str("commit"@, v.commit);
    let a10 = a9 + enc_opt_str("branchName"@, v.branch_name);
    let a11 = a10 + enc_opt_str("osPlatform"@, v.os_platform);
    let a12 = a11 + enc_opt_str("osRelease"@, v.os_release);
    let a13 = a12 + enc_opt_str("osVersion"@, v.os_version);
    let a14 = a13 + enc_opt_str("testEnvironment"@, v.test_environment);
    assert(environment_pairs(v) == a14 + v.extra);
    crate::codec::lemma_lookup_concat(a14, v.extra, "appVersion"@);
    crate::codec::lemma_lookup_concat(a13, enc_opt_str("testEnvironment"@, v.test_environment), "appVersion"@);
    crate::codec::lemma_lookup_concat(a12, enc_opt_str("osVersion"@, v.os_version), "appVersion"@);
    crate::codec::lemma_lookup_concat(a11, enc_opt_str("osRelease"@, v.os_release), "appVersion"@);
    crate::codec::lemma_lookup_concat(a10, enc_opt_str("osPlatform"@, v.os_platform), "appVersion"@);
    crate::codec::lemma_lookup_concat(a9, enc_opt_str("branchName"@, v.branch_name), "appVersion"@);
    crate::codec::lemma_lookup_concat(a8, enc_opt_str("commit"@, v.commit), "appVersion"@);
    crate::codec::lemma_lookup_concat(a7, enc_opt_str("repositoryUrl"@, v.repository_url), "appVersion"@);
    crate::codec::lemma_lookup_concat(a6, enc_opt_str("repositoryName"@, v.repository_name), "appVersion"@);
    crate::codec::lemma_lookup_concat(a5, enc_opt_str("buildUrl"@, v.build_url), "appVersion"@);
    crate::codec::lemma_lookup_concat(a4, enc_opt_str("buildNumber"@, v.build_number), "appVersion"@);
    crate::codec::lemma_lookup_concat(a3, enc_opt_str("buildName"@, v.build_name), "appVersion"@);
    crate::codec::lemma_lookup_concat(a2, enc_opt_str("appVersion"@, v.app_version), "appVersion"@);
    crate::codec::lemma_lookup_concat(a1, enc_opt_str("appName"@, v.app_name), "appVersion"@);
    crate::codec::lemma_lookup_opt_seg("reportName"@, v.report_name, "appVersion"@);
    crate::codec::lemma_lookup_opt_seg("appName"@, v.app_name, "appVersion"@);
    crate::codec::lemma_lookup_opt_seg("appVersion"@, v.app_version, "appVersion"@);
    crate::codec::lemma_lookup_opt_seg("buildName"@, v.build_name, "appVersion"@);
    crate::codec::lemma_lookup_opt_seg("buildNumber"@, v.build_number, "appVersion"@);
    crate::codec::lemma_lookup_opt_seg("buildUrl"@, v.build_url, "appVersion"@);
    crate::codec::lemma_lookup_opt_seg("repositoryName"@, v.repository_name, "appVersion"@);
    crate::codec::lemma_lookup_opt_seg("repositoryUrl"@, v.repository_url, "appVersion"@);
    crate::codec::lemma_lookup_opt_seg("commit"@, v.commit, "appVersion"@);
    crate::codec::lemma_lookup_opt_seg("branchName"@, v.branch_name, "appVersion"@);
    crate::codec::lemma_lookup_opt_seg("osPlatform"@, v.os_platform, "appVersion"@);
    crate::codec::lemma_lookup_opt_seg("osRelease"@, v.os_release, "appVersion"@);
    crate::codec::lemma_lookup_opt_seg("osVersion"@, v.os_version, "appVersion"@);
    crate::codec::lemma_lookup_opt_seg("testEnvironment"@, v.test_environment, "appVersion"@);
    assert forall|j: int| 0 <= j < v.extra.len() implies (#[trigger] v.extra[j]).0 != "appVersion"@ by {
        assert(environment_typed_keys().contains("appVersion"@));
    }
    crate::extra::lemma_lookup_absent(v.extra, "appVersion"@);
}

/// Where the `buildName` member stands in an encoded environment.
#[verifier::rlimit(60)]
#[verifier::spinoff_prover]
proof fn lemma_env_lookup_build_name(v: EnvironmentView)
    requires
        forall|j: int| 0 <= j < v.extra.len() ==> !environment_typed_keys().contains(
            (#[trigger] v.extra[j]).0,
        ),
    ensures
        dec_opt_str(environment_pairs(v), "buildName"@) == Some(v.build_name),
{
    reveal_strlit("buildName");
    reveal_strlit("reportName");
    reveal_strlit("appName");
    reveal_strlit("appVersion");
    reveal_strlit("buildNumber");
    reveal_strlit("buildUrl");
    reveal_strlit("repositoryName");
    reveal_strlit("repositoryUrl");
    reveal_strlit("commit");
    reveal_strlit("branchName");
    reveal_strlit("osPlatform");
    reveal_strlit("osRelease");
    reveal_strlit("osVersion");
    reveal_strlit("testEnvironment");
    assert("reportName"@ != "buildName"@) by {
        assert("reportName"@.len() == 10 && "buildName"@.len() == 9);
    }
    assert("appName"@ != "buildName"@) by {
        assert("appName"@.len() == 7 && "buildName"@.len() == 9);
    }
    assert("appVersion"@ != "buildName"@) by {
        assert("appVersion"@.len() == 10 && "buildName"@.len() == 9);
    }
    assert("buildNumber"@ != "buildName"@) by {
        assert("buildNumber"@.len() == 11 && "buildName"@.len() == 9);
    }
    assert("buildUrl"@ != "buildName"@) by {
        assert("buildUrl"@.len() == 8 && "buildName"@.len() == 9);
    }
    assert("repositoryName"@ != "buildName"@) by {
        assert("repositoryName"@.len() == 14 && "buildName"@.len() == 9);
    }
    assert("repositoryUrl"@ != "buildName"@) by {
        assert("repositoryUrl"@.len() == 13 && "buildName"@.len() == 9);
    }
    assert("commit"@ != "buildName"@) by {
        assert("commit"@.len() == 6 && "buildName"@.len() == 9);
    }
    assert("branchName"@ != "buildName"@) by {
        assert("branchName"@.len() == 10 && "buildName"@.len() == 9);
    }
    assert("osPlatform"@ != "buildName"@) by {
        assert("osPlatform"@.len() == 10 && "buildName"@.len() == 9);
    }
    assert("osRelease"@ != "buildName"@) by {
        assert("osRelease"@[0] != "buildName"@[0]);
    }
    assert("osVersion"@ != "buildName"@) by {
        assert("osVersion"@[0] != "buildName"@[0]);
    }
    assert("testEnvironment"@ != "buildName"@) by {
        assert("testEnvironment"@.len() == 15 && "buildName"@.len() == 9);
    }
    let a1 = enc_opt_str("reportName"@, v.report_name);
    let a2 = a1 + enc_opt_str("appName"@, v.app_name);
    let a3 = a2 + enc_opt_str("appVersion"@, v.app_version);
    let a4 = a3 + enc_opt_str("buildName"@, v.build_name);
    let a5 = a4 + enc_opt_str("buildNumber"@, v.build_number);
    let a6 = a5 + enc_opt_str("buildUrl"@, v.build_url);
    let a7 = a6 + enc_opt_str("repositoryName"@, v.repository_name);
    let a8 = a7 + enc_opt_str("repositoryUrl"@, v.repository_url);
    let a9 = a8 + enc_opt_str("commit"@, v.commit);
    let a10 = a9 + enc_opt_str("branchName"@, v.branch_name);
    let a11 = a10 + enc_opt_str("osPlatform"@, v.os_platform);
    let a12 = a11 + enc_opt_str("osRelease"@, v.os_release);
    let a13 = a12 + enc_opt_str("osVersion"@, v.os_version);
    let a14 = a13 + enc_opt_str("testEnvironment"@, v.test_environment);
    assert(environment_pairs(v) == a14 + v.extra);
    crate::codec::lemma_lookup_concat(a14, v.extra, "buildName"@);
    crate::codec::lemma_lookup_concat(a13, enc_opt_str("testEnvironment"@, v.test_environment), "buildName"@);
    crate::codec::lemma_lookup_concat(a12, enc_opt_str("osVersion"@, v.os_version), "buildName"@);
    crate::codec::lemma_lookup_concat(a11, enc_opt_str("osRelease"@, v.os_release), "buildName"@);
    crate::codec::lemma_lookup_concat(a10, enc_opt_str("osPlatform"@, v.os_platform), "buildName"@);
    crate::codec::lemma_lookup_concat(a9, enc_opt_str("branchName"@, v.branch_name), "buildName"@);
    crate::codec::lemma_lookup_concat(a8, enc_opt_str("commit"@, v.commit), "buildName"@);
    crate::codec::lemma_lookup_concat(a7, enc_opt_str("repositoryUrl"@, v.repository_url), "buildName"@);
    crate::codec::lemma_lookup_concat(a6, enc_opt_str("repositoryName"@, v.repository_name), "buildName"@);
    crate::codec::lemma_lookup_concat(a5, enc_opt_str("buildUrl"@, v.build_url), "buildName"@);
    crate::codec::lemma_lookup_concat(a4, enc_opt_str("buildNumber"@, v.build_number), "buildName"@);
    crate::codec::lemma_lookup_concat(a3, enc_opt_str("buildName"@, v.build_name), "buildName"@);
    crate::codec::lemma_lookup_concat(a2, enc_opt_str("appVersion"@, v.app_version), "buildName"@);
    crate::codec::lemma_lookup_concat(a1, enc_opt_str("appName"@, v.app_name), "buildName"@);
    crate::codec::lemma_lookup_opt_seg("reportName"@, v.report_name, "buildName"@);
    crate::codec::lemma_lookup_opt_seg("appName"@, v.app_name, "buildName"@);
    crate::codec::lemma_lookup_opt_seg("appVersion"@, v.app_version, "buildName"@);
    crate::codec::lemma_lookup_opt_seg("buildName"@, v.build_name, "buildName"@);
    crate::codec::lemma_lookup_opt_seg("buildNumber"@, v.build_number, "buildName"@);
    crate::codec::lemma_lookup_opt_seg("buildUrl"@, v.build_url, "buildName"@);
    crate::codec::lemma_lookup_opt_seg("repositoryName"@, v.repository_name, "buildName"@);
    crate::codec::lemma_lookup_opt_seg("repositoryUrl"@, v.repository_url, "buildName"@);
    crate::codec::lemma_lookup_opt_seg("commit"@, v.commit, "buildName"@);
    crate::codec::lemma_lookup_opt_seg("branchName"@, v.branch_name, "buildName"@);
    crate::codec::lemma_lookup_opt_seg("osPlatform"@, v.os_platform, "buildName"@);
    crate::codec::lemma_lookup_opt_seg("osRelease"@, v.os_release, "buildName"@);
    crate::codec::lemma_lookup_opt_seg("osVersion"@, v.os_version, "buildName"@);
    crate::codec::lemma_lookup_opt_seg("testEnvironment"@, v.test_environment, "buildName"@);
    assert forall|j: int| 0 <= j < v.extra.len() implies (#[trigger] v.extra[j]).0 != "buildName"@ by {
        assert(environment_typed_keys().contains("buildName"@));
    }
    crate::extra::lemma_lookup_absent(v.extra, "buildName"@);
}

/// Where the `buildNumber` member stands in an encoded environment.
#[verifier::rlimit(60)]
#[verifier::spinoff_prover]
proof fn lemma_env_lookup_build_number(v: EnvironmentView)
    requires
        forall|j: int| 0 <= j < v.extra.len() ==> !environment_typed_keys().contains(
            (#[trigger] v.extra[j]).0,
        ),
    ensures
        dec_opt_str(environment_pairs(v), "buildNumber"@) == Some(v.build_number),
{
    reveal_strlit("buildNumber");
    reveal_strlit("reportName");
    reveal_strlit("appName");
    reveal_strlit("appVersion");
    reveal_strlit("buildName");
    reveal_strlit("buildUrl");
    reveal_strlit("repositoryName");
    reveal_strlit("repositoryUrl");
    reveal_strlit("commit");
    reveal_strlit("branchName");
    reveal_strlit("osPlatform");
    reveal_strlit("osRelease");
    reveal_strlit("osVersion");
    reveal_strlit("testEnvironment");
    assert("reportName"@ != "buildNumber"@) by {
        assert("reportName"@.len() == 10 && "buildNumber"@.len() == 11);
    }
    assert("appName"@ != "buildNumber"@) by {
        assert("appName"@.len() == 7 && "buildNumber"@.len() == 11);
    }
    assert("appVersion"@ != "buildNumber"@) by {
        assert("appVersion"@.len() == 10 && "buildNumber"@.len() == 11);
    }
    assert("buildName"@ != "buildNumber"@) by {
        assert("buildName"@.len() == 9 && "buildNumber"@.len() == 11);
    }
    assert("buildUrl"@ != "buildNumber"@) by {
        assert("buildUrl"@.len() == 8 && "buildNumber"@.len() == 11);
    }
    assert("repositoryName"@ != "buildNumber"@) by {
        assert("repositoryName"@.len() == 14 && "buildNumber"@.len() == 11);
    }
    assert("repositoryUrl"@ != "buildNumber"@) by {
        assert("repositoryUrl"@.len() == 13 && "buildNumber"@.len() == 11);
    }
    assert("commit"@ != "buildNumber"@) by {
        assert("commit"@.len() == 6 && "buildNumber"@.len() == 11);
    }
    assert("branchName"@ != "buildNumber"@) by {
        assert("branchName"@.len() == 10 && "buildNumber"@.len() == 11);
    }
    assert("osPlatform"@ != "buildNumber"@) by {
        assert("osPlatform"@.len() == 10 && "buildNumber"@.len() == 11);
    }
    assert("osRelease"@ != "buildNumber"@) by {
        assert("osRelease"@.len() == 9 && "buildNumber"@.len() == 11);
    }
    assert("osVersion"@ != "buildNumber"@) by {
        assert("osVersion"@.len() == 9 && "buildNumber"@.len() == 11);
    }
    assert("testEnvironment"@ != "buildNumber"@) by {
        assert("testEnvironment"@.len() == 15 && "buildNumber"@.len() == 11);
    }
    let a1 = enc_opt_str("reportName"@, v.report_name);
    let a2 = a1 + enc_opt_str("appName"@, v.app_name);
    let a3 = a2 + enc_opt_str("appVersion"@, v.app_version);
    let a4 = a3 + enc_opt_str("buildName"@, v.build_name);
    let a5 = a4 + enc_opt_str("buildNumber"@, v.build_number);
    let a6 = a5 + enc_opt_str("buildUrl"@, v.build_url);
    let a7 = a6 + enc_opt_str("repositoryName"@, v.repository_name);
    let a8 = a7 + enc_opt_str("repositoryUrl"@, v.repository_url);
    let a9 = a8 + enc_opt_str("commit"@, v.commit);
    let a10 = a9 + enc_opt_str("branchName"@, v.branch_name);
    let a11 = a10 + enc_opt_str("osPlatform"@, v.os_platform);
    let a12 = a11 + enc_opt_str("osRelease"@, v.os_release);
    let a13 = a12 + enc_opt_str("osVersion"@, v.os_version);
    let a14 = a13 + enc_opt_str("testEnvironment"@, v.test_environment);
    assert(environment_pairs(v) == a14 + v.extra);
    crate::codec::lemma_lookup_concat(a14, v.extra, "buildNumber"@);
    crate::codec::lemma_lookup_concat(a13, enc_opt_str("testEnvironment"@, v.test_environment), "buildNumber"@);
    crate::codec::lemma_lookup_concat(a12, enc_opt_str("osVersion"@, v.os_version), "buildNumber"@);
    crate::codec::lemma_lookup_concat(a11, enc_opt_str("osRelease"@, v.os_release), "buildNumber"@);
    crate::codec::lemma_lookup_concat(a10, enc_opt_str("osPlatform"@, v.os_platform), "buildNumber"@);
    crate::codec::lemma_lookup_concat(a9, enc_opt_str("branchName"@, v.branch_name), "buildNumber"@);
    crate::codec::lemma_lookup_concat(a8, enc_opt_str("commit"@, v.commit), "buildNumber"@);
    crate::codec::lemma_lookup_concat(a7, enc_opt_str("repositoryUrl"@, v.repository_url), "buildNumber"@);
    crate::codec::lemma_lookup_concat(a6, enc_opt_str("repositoryName"@, v.repository_name), "buildNumber"@);
    crate::codec::lemma_lookup_concat(a5, enc_opt_str("buildUrl"@, v.build_url), "buildNumber"@);
    crate::codec::lemma_lookup_concat(a4, enc_opt_str("buildNumber"@, v.build_number), "buildNumber"@);
    crate::codec::lemma_lookup_concat(a3, enc_opt_str("buildName"@, v.build_name), "buildNumber"@);
    crate::codec::lemma_lookup_concat(a2, enc_opt_str("appVersion"@, v.app_version), "buildNumber"@);
    crate::codec::lemma_lookup_concat(a1, enc_opt_str("appName"@, v.app_name), "buildNumber"@);
    crate::codec::lemma_lookup_opt_seg("reportName"@, v.report_name, "buildNumber"@);
    crate::codec::lemma_lookup_opt_seg("appName"@, v.app_name, "buildNumber"@);
    crate::codec::lemma_lookup_opt_seg("appVersion"@, v.app_version, "buildNumber"@);
    crate::codec::lemma_lookup_opt_seg("buildName"@, v.build_name, "buildNumber"@);
    crate::codec::lemma_lookup_opt_seg("buildNumber"@, v.build_number, "buildNumber"@);
    crate::codec::lemma_lookup_opt_seg("buildUrl"@, v.build_url, "buildNumber"@);
    crate::codec::lemma_lookup_opt_seg("repositoryName"@, v.repository_name, "buildNumber"@);
    crate::codec::lemma_lookup_opt_seg("repositoryUrl"@, v.repository_url, "buildNumber"@);
    crate::codec::lemma_lookup_opt_seg("commit"@, v.commit, "buildNumber"@);
    crate::codec::lemma_lookup_opt_seg("branchName"@, v.branch_name, "buildNumber"@);
    crate::codec::lemma_lookup_opt_seg("osPlatform"@, v.os_platform, "buildNumber"@);
    crate::codec::lemma_lookup_opt_seg("osRelease"@, v.os_release, "buildNumber"@);
    crate::codec::lemma_lookup_opt_seg("osVersion"@, v.os_version, "buildNumber"@);
    crate::codec::lemma_lookup_opt_seg("testEnvironment"@, v.test_environment, "buildNumber"@);
    assert forall|j: int| 0 <= j < v.extra.len() implies (#[trigger] v.extra[j]).0 != "buildNumber"@ by {
        assert(environment_typed_keys().contains("buildNumber"@));
    }
    crate::extra::lemma_lookup_absent(v.extra, "buildNumber"@);
}

/// Where the `buildUrl` member stands in an encoded environment.
#[verifier::rlimit(60)]
#[verifier::spinoff_prover]
proof fn lemma_env_lookup_build_url(v: EnvironmentView)
    requires
        forall|j: int| 0 <= j < v.extra.len() ==> !environment_typed_keys().contains(
            (#[trigger] v.extra[j]).0,
        ),
    ensures
        dec_opt_str(environment_pairs(v), "buildUrl"@) == Some(v.build_url),
{
    reveal_strlit("buildUrl");
    reveal_strlit("reportName");
    reveal_strlit("appName");
    reveal_strlit("appVersion");
    reveal_strlit("buildName");
    reveal_strlit("buildNumber");
    reveal_strlit("repositoryName");
    reveal_strlit("repositoryUrl");
    reveal_strlit("commit");
    reveal_strlit("branchName");
    reveal_strlit("osPlatform");
    reveal_strlit("osRelease");
    reveal_strlit("osVersion");
    reveal_strlit("testEnvironment");
    assert("reportName"@ != "buildUrl"@) by {
        assert("reportName"@.len() == 10 && "buildUrl"@.len() == 8);
    }
    assert("appName"@ != "buildUrl"@) by {
        assert("appName"@.len() == 7 && "buildUrl"@.len() == 8);
    }
    assert("appVersion"@ != "buildUrl"@) by {
        assert("appVersion"@.len() == 10 && "buildUrl"@.len() == 8);
    }
    assert("buildName"@ != "buildUrl"@) by {
        assert("buildName"@.len() == 9 && "buildUrl"@.len() == 8);
    }
    assert("buildNumber"@ != "buildUrl"@) by {
        assert("buildNumber"@.len() == 11 && "buildUrl"@.len() == 8);
    }
    assert("repositoryName"@ != "buildUrl"@) by {
        assert("repositoryName"@.len() == 14 && "buildUrl"@.len() == 8);
    }
    assert("repositoryUrl"@ != "buildUrl"@) by {
        assert("repositoryUrl"@.len() == 13 && "buildUrl"@.len() == 8);
    }
    assert("commit"@ != "buildUrl"@) by {
        assert("commit"@.len() == 6 && "buildUrl"@.len() == 8);
    }
    assert("branchName"@ != "buildUrl"@) by {
        assert("branchName"@.len() == 10 && "buildUrl"@.len() == 8);
    }
    assert("osPlatform"@ != "buildUrl"@) by {
        assert("osPlatform"@.len() == 10 && "buildUrl"@.len() == 8);
    }
    assert("osRelease"@ != "buildUrl"@) by {
        assert("osRelease"@.len() == 9 && "buildUrl"@.len() == 8);
    }
    assert("osVersion"@ != "buildUrl"@) by {
        assert("osVersion"@.len() == 9 && "buildUrl"@.len() == 8);
    }
    assert("testEnvironment"@ != "buildUrl"@) by {
        assert("testEnvironment"@.len() == 15 && "buildUrl"@.len() == 8);
    }
    let a1 = enc_opt_str("reportName"@, v.report_name);
    let a2 = a1 + enc_opt_str("appName"@, v.app_name);
    let a3 = a2 + enc_opt_str("appVersion"@, v.app_version);
    let a4 = a3 + enc_opt_str("buildName"@, v.build_name);
    let a5 = a4 + enc_opt_str("buildNumber"@, v.build_number);
    let a6 = a5 + enc_opt_str("buildUrl"@, v.build_url);
    let a7 = a6 + enc_opt_str("repositoryName"@, v.repository_name);
    let a8 = a7 + enc_opt_str("repositoryUrl"@, v.repository_url);
    let a9 = a8 + enc_opt_str("commit"@, v.commit);
    let a10 = a9 + enc_opt_str("branchName"@, v.branch_name);
    let a11 = a10 + enc_opt_str("osPlatform"@, v.os_platform);
    let a12 = a11 + enc_opt_str("osRelease"@, v.os_release);
    let a13 = a12 + enc_opt_str("osVersion"@, v.os_version);
    let a14 = a13 + enc_opt_str("testEnvironment"@, v.test_environment);
    assert(environment_pairs(v) == a14 + v.extra);
    crate::codec::lemma_lookup_concat(a14, v.extra, "buildUrl"@);
    crate::codec::lemma_lookup_concat(a13, enc_opt_str("testEnvironment"@, v.test_environment), "buildUrl"@);
    crate::codec::lemma_lookup_concat(a12, enc_opt_str("osVersion"@, v.os_version), "buildUrl"@);
    crate::codec::lemma_lookup_concat(a11, enc_opt_str("osRelease"@, v.os_release), "buildUrl"@);
    crate::codec::lemma_lookup_concat(a10, enc_opt_str("osPlatform"@, v.os_platform), "buildUrl"@);
    crate::codec::lemma_lookup_concat(a9, enc_opt_str("branchName"@, v.branch_name), "buildUrl"@);
    crate::codec::lemma_lookup_concat(a8, enc_opt_str("commit"@, v.commit), "buildUrl"@);
    crate::codec::lemma_lookup_concat(a7, enc_opt_str("repositoryUrl"@, v.repository_url), "buildUrl"@);
    crate::codec::lemma_lookup_concat(a6, enc_opt_str("repositoryName"@, v.repository_name), "buildUrl"@);
    crate::codec::lemma_lookup_concat(a5, enc_opt_str("buildUrl"@, v.build_url), "buildUrl"@);
    crate::codec::lemma_lookup_concat(a4, enc_opt_str("buildNumber"@, v.build_number), "buildUrl"@);
    crate::codec::lemma_lookup_concat(a3, enc_opt_str("buildName"@, v.build_name), "buildUrl"@);
    crate::codec::lemma_lookup_concat(a2, enc_opt_str("appVersion"@, v.app_version), "buildUrl"@);
    crate::codec::lemma_lookup_concat(a1, enc_opt_str("appName"@, v.app_name), "buildUrl"@);
    crate::codec::lemma_lookup_opt_seg("reportName"@, v.report_name, "buildUrl"@);
    crate::codec::lemma_lookup_opt_seg("appName"@, v.app_name, "buildUrl"@);
    crate::codec::lemma_lookup_opt_seg("appVersion"@, v.app_version, "buildUrl"@);
    crate::codec::lemma_lookup_opt_seg("buildName"@, v.build_name, "buildUrl"@);
    crate::codec::lemma_lookup_opt_seg("buildNumber"@, v.build_number, "buildUrl"@);
    crate::codec::lemma_lookup_opt_seg("buildUrl"@, v.build_url, "buildUrl"@);
    crate::codec::lemma_lookup_opt_seg("repositoryName"@, v.repository_name, "buildUrl"@);
    crate::codec::lemma_lookup_opt_seg("repositoryUrl"@, v.repository_url, "buildUrl"@);
    crate::codec::lemma_lookup_opt_seg("commit"@, v.commit, "buildUrl"@);
    crate::codec::lemma_lookup_opt_seg("branchName"@, v.branch_name, "buildUrl"@);
    crate::codec::lemma_lookup_opt_seg("osPlatform"@, v.os_platform, "buildUrl"@);
    crate::codec::lemma_lookup_opt_seg("osRelease"@, v.os_release, "buildUrl"@);
    crate::codec::lemma_lookup_opt_seg("osVersion"@, v.os_version, "buildUrl"@);
    crate::codec::lemma_lookup_opt_seg("testEnvironment"@, v.test_environment, "buildUrl"@);
    assert forall|j: int| 0 <= j < v.extra.len() implies (#[trigger] v.extra[j]).0 != "buildUrl"@ by {
        assert(environment_typed_keys().contains("buildUrl"@));
    }
    crate::extra::lemma_lookup_absent(v.extra, "buildUrl"@);
}

/// Where the `repositoryName` member stands in an encoded environment.
#[verifier::rlimit(60)]
#[verifier::spinoff_prover]
proof fn lemma_env_lookup_repository_name(v: EnvironmentView)
    requires
        forall|j: int| 0 <= j < v.extra.len() ==> !environment_typed_keys().contains(
            (#[trigger] v.extra[j]).0,
        ),
    ensures
        dec_opt_str(environment_pairs(v), "repositoryName"@) == Some(v.repository_name),
{
    reveal_strlit("repositoryName");
    reveal_strlit("reportName");
    reveal_strlit("appName");
    reveal_strlit("appVersion");
    reveal_strlit("buildName");
    reveal_strlit("buildNumber");
    reveal_strlit("buildUrl");
    reveal_strlit("repositoryUrl");
    reveal_strlit("commit");
    reveal_strlit("branchName");
    reveal_strlit("osPlatform");
    reveal_strlit("osRelease");
    reveal_strlit("osVersion");
    reveal_strlit("testEnvironment");
    assert("reportName"@ != "repositoryName"@) by {
        assert("reportName"@.len() == 10 && "repositoryName"@.len() == 14);
    }
    assert("appName"@ != "repositoryName"@) by {
        assert("appName"@.len() == 7 && "repositoryName"@.len() == 14);
    }
    assert("appVersion"@ != "repositoryName"@) by {
        assert("appVersion"@.len() == 10 && "repositoryName"@.len() == 14);
    }
    assert("buildName"@ != "repositoryName"@) by {
        assert("buildName"@.len() == 9 && "repositoryName"@.len() == 14);
    }
    assert("buildNumber"@ != "repositoryName"@) by {
        assert("buildNumber"@.len() == 11 && "repositoryName"@.len() == 14);
    }
    assert("buildUrl"@ != "repositoryName"@) by {
        assert("buildUrl"@.len() == 8 && "repositoryName"@.len() == 14);
    }
    assert("repositoryUrl"@ != "repositoryName"@) by {
        assert("repositoryUrl"@.len() == 13 && "repositoryName"@.len() == 14);
    }
    assert("commit"@ != "repositoryName"@) by {
        assert("commit"@.len() == 6 && "repositoryName"@.len() == 14);
    }
    assert("branchName"@ != "repositoryName"@) by {
        assert("branchName"@.len() == 10 && "repositoryName"@.len() == 14);
    }
    assert("osPlatform"@ != "repositoryName"@) by {
        assert("osPlatform"@.len() == 10 && "repositoryName"@.len() == 14);
    }
    assert("osRelease"@ != "repositoryName"@) by {
        assert("osRelease"@.len() == 9 && "repositoryName"@.len() == 14);
    }
    assert("osVersion"@ != "repositoryName"@) by {
        assert("osVersion"@.len() == 9 && "repositoryName"@.len() == 14);
    }
    assert("testEnvironment"@ != "repositoryName"@) by {
        assert("testEnvironment"@.len() == 15 && "repositoryName"@.len() == 14);
    }
    let a1 = enc_opt_str("reportName"@, v.report_name);
    let a2 = a1 + enc_opt_str("appName"@, v.app_name);
    let a3 = a2 + enc_opt_str("appVersion"@, v.app_version);
    let a4 = a3 + enc_opt_str("buildName"@, v.build_name);
    let a5 = a4 + enc_opt_str("buildNumber"@, v.build_number);
    let a6 = a5 + enc_opt_str("buildUrl"@, v.build_url);
    let a7 = a6 + enc_opt_str("repositoryName"@, v.repository_name);
    let a8 = a7 + enc_opt_str("repositoryUrl"@, v.repository_url);
    let a9 = a8 + enc_opt_str("commit"@, v.commit);
    let a10 = a9 + enc_opt_str("branchName"@, v.branch_name);
    let a11 = a10 + enc_opt_str("osPlatform"@, v.os_platform);
    let a12 = a11 + enc_opt_str("osRelease"@, v.os_release);
    let a13 = a12 + enc_opt_str("osVersion"@, v.os_version);
    let a14 = a13 + enc_opt_str("testEnvironment"@, v.test_environment);
    assert(environment_pairs(v) == a14 + v.extra);
    crate::codec::lemma_lookup_concat(a14, v.extra, "repositoryName"@);
    crate::codec::lemma_lookup_concat(a13, enc_opt_str("testEnvironment"@, v.test_environment), "repositoryName"@);
    crate::codec::lemma_lookup_concat(a12, enc_opt_str("osVersion"@, v.os_version), "repositoryName"@);
    crate::codec::lemma_lookup_concat(a11, enc_opt_str("osRelease"@, v.os_release), "repositoryName"@);
    crate::codec::lemma_lookup_concat(a10, enc_opt_str("osPlatform"@, v.os_platform), "repositoryName"@);
    crate::codec::lemma_lookup_concat(a9, enc_opt_str("branchName"@, v.branch_name), "repositoryName"@);
    crate::codec::lemma_lookup_concat(a8, enc_opt_str("commit"@, v.commit), "repositoryName"@);
    crate::codec::lemma_lookup_concat(a7, enc_opt_str("repositoryUrl"@, v.repository_url), "repositoryName"@);
    crate::codec::lemma_lookup_concat(a6, enc_opt_str("repositoryName"@, v.repository_name), "repositoryName"@);
    crate::codec::lemma_lookup_concat(a5, enc_opt_str("buildUrl"@, v.build_url), "repositoryName"@);
    crate::codec::lemma_lookup_concat(a4, enc_opt_str("buildNumber"@, v.build_number), "repositoryName"@);
    crate::codec::lemma_lookup_concat(a3, enc_opt_str("buildName"@, v.build_name), "repositoryName"@);
    crate::codec::lemma_lookup_concat(a2, enc_opt_str("appVersion"@, v.app_version), "repositoryName"@);
    crate::codec::lemma_lookup_concat(a1, enc_opt_str("appName"@, v.app_name), "repositoryName"@);
    crate::codec::lemma_lookup_opt_seg("reportName"@, v.report_name, "repositoryName"@);
    crate::codec::lemma_lookup_opt_seg("appName"@, v.app_name, "repositoryName"@);
    crate::codec::lemma_lookup_opt_seg("appVersion"@, v.app_version, "repositoryName"@);
    crate::codec::lemma_lookup_opt_seg("buildName"@, v.build_name, "repositoryName"@);
    crate::codec::lemma_lookup_opt_seg("buildNumber"@, v.build_number, "repositoryName"@);
    crate::codec::lemma_lookup_opt_seg("buildUrl"@, v.build_url, "repositoryName"@);
    crate::codec::lemma_lookup_opt_seg("repositoryName"@, v.repository_name, "repositoryName"@);
    crate::codec::lemma_lookup_opt_seg("repositoryUrl"@, v.repository_url, "repositoryName"@);
    crate::codec::lemma_lookup_opt_seg("commit"@, v.commit, "repositoryName"@);
    crate::codec::lemma_lookup_opt_seg("branchName"@, v.branch_name, "repositoryName"@);
    crate::codec::lemma_lookup_opt_seg("osPlatform"@, v.os_platform, "repositoryName"@);
    crate::codec::lemma_lookup_opt_seg("osRelease"@, v.os_release, "repositoryName"@);
    crate::codec::lemma_lookup_opt_seg("osVersion"@, v.os_version, "repositoryName"@);
    crate::codec::lemma_lookup_opt_seg("testEnvironment"@, v.test_environment, "repositoryName"@);
    assert forall|j: int| 0 <= j < v.extra.len() implies (#[trigger] v.extra[j]).0 != "repositoryName"@ by {
        assert(environment_typed_keys().contains("repositoryName"@));
    }
    crate::extra::lemma_lookup_absent(v.extra, "repositoryName"@);
}

/// Where the `repositoryUrl` member stands in an encoded environment.
#[verifier::rlimit(60)]
#[verifier::spinoff_prover]
proof fn lemma_env_lookup_repository_url(v: EnvironmentView)
    requires
        forall|j: int| 0 <= j < v.extra.len() ==> !environment_typed_keys().contains(
            (#[trigger] v.extra[j]).0,
        ),
    ensures
        dec_opt_str(environment_pairs(v), "repositoryUrl"@) == Some(v.repository_url),
{
    reveal_strlit("repositoryUrl");
    reveal_strlit("reportName");
    reveal_strlit("appName");
    reveal_strlit("appVersion");
    reveal_strlit("buildName");
    reveal_strlit("buildNumber");
    reveal_strlit("buildUrl");
    reveal_strlit("repositoryName");
    reveal_strlit("commit");
    reveal_strlit("branchName");
    reveal_strlit("osPlatform");
    reveal_strlit("osRelease");
    reveal_strlit("osVersion");
    reveal_strlit("testEnvironment");
    assert("reportName"@ != "repositoryUrl"@) by {
        assert("reportName"@.len() == 10 && "repositoryUrl"@.len() == 13);
    }
    assert("appName"@ != "repositoryUrl"@) by {
        assert("appName"@.len() == 7 && "repositoryUrl"@.len() == 13);
    }
    assert("appVersion"@ != "repositoryUrl"@) by {
        assert("appVersion"@.len() == 10 && "repositoryUrl"@.len() == 13);
    }
    assert("buildName"@ != "repositoryUrl"@) by {
        assert("buildName"@.len() == 9 && "repositoryUrl"@.len() == 13);
    }
    assert("buildNumber"@ != "repositoryUrl"@) by {
        assert("buildNumber"@.len() == 11 && "repositoryUrl"@.len() == 13);
    }
    assert("buildUrl"@ != "repositoryUrl"@) by {
        assert("buildUrl"@.len() == 8 && "repositoryUrl"@.len() == 13);
    }
    assert("repositoryName"@ != "repositoryUrl"@) by {
        assert("repositoryName"@.len() == 14 && "repositoryUrl"@.len() == 13);
    }
    assert("commit"@ != "repositoryUrl"@) by {
        assert("commit"@.len() == 6 && "repositoryUrl"@.len() == 13);
    }
    assert("branchName"@ != "repositoryUrl"@) by {
        assert("branchName"@.len() == 10 && "repositoryUrl"@.len() == 13);
    }
    assert("osPlatform"@ != "repositoryUrl"@) by {
        assert("osPlatform"@.len() == 10 && "repositoryUrl"@.len() == 13);
    }
    assert("osRelease"@ != "repositoryUrl"@) by {
        assert("osRelease"@.len() == 9 && "repositoryUrl"@.len() == 13);
    }
    assert("osVersion"@ != "repositoryUrl"@) by {
        assert("osVersion"@.len() == 9 && "repositoryUrl"@.len() == 13);
    }
    assert("testEnvironment"@ != "repositoryUrl"@) by {
        assert("testEnvironment"@.len() == 15 && "repositoryUrl"@.len() == 13);
    }
    let a1 = enc_opt_str("reportName"@, v.report_name);
    let a2 = a1 + enc_opt_str("appName"@, v.app_name);
    let a3 = a2 + enc_opt_str("appVersion"@, v.app_version);
    let a4 = a3 + enc_opt_str("buildName"@, v.build_name);
    let a5 = a4 + enc_opt_str("buildNumber"@, v.build_number);
    let a6 = a5 + enc_opt_str("buildUrl"@, v.build_url);
    let a7 = a6 + enc_opt_str("repositoryName"@, v.repository_name);
    let a8 = a7 + enc_opt_str("repositoryUrl"@, v.repository_url);
    let a9 = a8 + enc_opt_str("commit"@, v.commit);
    let a10 = a9 + enc_opt_str("branchName"@, v.branch_name);
    let a11 = a10 + enc_opt_str("osPlatform"@, v.os_platform);
    let a12 = a11 + enc_opt_str("osRelease"@, v.os_release);
    let a13 = a12 + enc_opt_str("osVersion"@, v.os_version);
    let a14 = a13 + enc_opt_str("testEnvironment"@, v.test_environment);
    assert(environment_pairs(v) == a14 + v.extra);
    crate::codec::lemma_lookup_concat(a14, v.extra, "repositoryUrl"@);
    crate::codec::lemma_lookup_concat(a13, enc_opt_str("testEnvironment"@, v.test_environment), "repositoryUrl"@);
    crate::codec::lemma_lookup_concat(a12, enc_opt_str("osVersion"@, v.os_version), "repositoryUrl"@);
    crate::codec::lemma_lookup_concat(a11, enc_opt_str("osRelease"@, v.os_release), "repositoryUrl"@);
    crate::codec::lemma_lookup_concat(a10, enc_opt_str("osPlatform"@, v.os_platform), "repositoryUrl"@);
    crate::codec::lemma_lookup_concat(a9, enc_opt_str("branchName"@, v.branch_name), "repositoryUrl"@);
    crate::codec::lemma_lookup_concat(a8, enc_opt_str("commit"@, v.commit), "repositoryUrl"@);
    crate::codec::lemma_lookup_concat(a7, enc_opt_str("repositoryUrl"@, v.repository_url), "repositoryUrl"@);
    crate::codec::lemma_lookup_concat(a6, enc_opt_str("repositoryName"@, v.repository_name), "repositoryUrl"@);
    crate::codec::lemma_lookup_concat(a5, enc_opt_str("buildUrl"@, v.build_url), "repositoryUrl"@);
    crate::codec::lemma_lookup_concat(a4, enc_opt_str("buildNumber"@, v.build_number), "repositoryUrl"@);
    crate::codec::lemma_lookup_concat(a3, enc_opt_str("buildName"@, v.build_name), "repositoryUrl"@);
    crate::codec::lemma_lookup_concat(a2, enc_opt_str("appVersion"@, v.app_version), "repositoryUrl"@);
    crate::codec::lemma_lookup_concat(a1, enc_opt_str("appName"@, v.app_name), "repositoryUrl"@);
    crate::codec::lemma_lookup_opt_seg("reportName"@, v.report_name, "repositoryUrl"@);
    crate::codec::lemma_lookup_opt_seg("appName"@, v.app_name, "repositoryUrl"@);
    crate::codec::lemma_lookup_opt_seg("appVersion"@, v.app_version, "repositoryUrl"@);
    crate::codec::lemma_lookup_opt_seg("buildName"@, v.build_name, "repositoryUrl"@);
    crate::codec::lemma_lookup_opt_seg("buildNumber"@, v.build_number, "repositoryUrl"@);
    crate::codec::lemma_lookup_opt_seg("buildUrl"@, v.build_url, "repositoryUrl"@);
    crate::codec::lemma_lookup_opt_seg("repositoryName"@, v.repository_name, "repositoryUrl"@);
    crate::codec::lemma_lookup_opt_seg("repositoryUrl"@, v.repository_url, "repositoryUrl"@);
    crate::codec::lemma_lookup_opt_seg("commit"@, v.commit, "repositoryUrl"@);
    crate::codec::lemma_lookup_opt_seg("branchName"@, v.branch_name, "repositoryUrl"@);
    crate::codec::lemma_lookup_opt_seg("osPlatform"@, v.os_platform, "repositoryUrl"@);
    crate::codec::lemma_lookup_opt_seg("osRelease"@, v.os_release, "repositoryUrl"@);
    crate::codec::lemma_lookup_opt_seg("osVersion"@, v.os_version, "repositoryUrl"@);
    crate::codec::lemma_lookup_opt_seg("testEnvironment"@, v.test_environment, "repositoryUrl"@);
    assert forall|j: int| 0 <= j < v.extra.len() implies (#[trigger] v.extra[j]).0 != "repositoryUrl"@ by {
        assert(environment_typed_keys().contains("repositoryUrl"@));
    }
    crate::extra::lemma_lookup_absent(v.extra, "repositoryUrl"@);
}

/// Where the `commit` member stands in an encoded environment.
#[verifier::rlimit(60)]
#[verifier::spinoff_prover]
proof fn lemma_env_lookup_commit(v: EnvironmentView)
    requires
        forall|j: int| 0 <= j < v.extra.len() ==> !environment_typed_keys().contains(
            (#[trigger] v.extra[j]).0,
        ),
    ensures
        dec_opt_str(environment_pairs(v), "commit"@) == Some(v.commit),
{
    reveal_strlit("commit");
    reveal_strlit("reportName");
    reveal_strlit("appName");
    reveal_strlit("appVersion");
    reveal_strlit("buildName");
    reveal_strlit("buildNumber");
    reveal_strlit("buildUrl");
    reveal_strlit("repositoryName");
    reveal_strlit("repositoryUrl");
    reveal_strlit("branchName");
    reveal_strlit("osPlatform");
    reveal_strlit("osRelease");
    reveal_strlit("osVersion");
    reveal_strlit("testEnvironment");
    assert("reportName"@ != "commit"@) by {
        assert("reportName"@.len() == 10 && "commit"@.len() == 6);
    }
    assert("appName"@ != "commit"@) by {
        assert("appName"@.len() == 7 && "commit"@.len() == 6);
    }
    assert("appVersion"@ != "commit"@) by {
        assert("appVersion"@.len() == 10 && "commit"@.len() == 6);
    }
    assert("buildName"@ != "commit"@) by {
        assert("buildName"@.len() == 9 && "commit"@.len() == 6);
    }
    assert("buildNumber"@ != "commit"@) by {
        assert("buildNumber"@.len() == 11 && "commit"@.len() == 6);
    }
    assert("buildUrl"@ != "commit"@) by {
        assert("buildUrl"@.len() == 8 && "commit"@.len() == 6);
    }
    assert("repositoryName"@ != "commit"@) by {
        assert("repositoryName"@.len() == 14 && "commit"@.len() == 6);
    }
    assert("repositoryUrl"@ != "commit"@) by {
        assert("repositoryUrl"@.len() == 13 && "commit"@.len() == 6);
    }
    assert("branchName"@ != "commit"@) by {
        assert("branchName"@.len() == 10 && "commit"@.len() == 6);
    }
    assert("osPlatform"@ != "commit"@) by {
        assert("osPlatform"@.len() == 10 && "commit"@.len() == 6);
    }
    assert("osRelease"@ != "commit"@) by {
        assert("osRelease"@.len() == 9 && "commit"@.len() == 6);
    }
    assert("osVersion"@ != "commit"@) by {
        assert("osVersion"@.len() == 9 && "commit"@.len() == 6);
    }
    assert("testEnvironment"@ != "commit"@) by {
        assert("testEnvironment"@.len() == 15 && "commit"@.len() == 6);
    }
    let a1 = enc_opt_str("reportName"@, v.report_name);
    let a2 = a1 + enc_opt_str("appName"@, v.app_name);
    let a3 = a2 + enc_opt_str("appVersion"@, v.app_version);
    let a4 = a3 + enc_opt_str("buildName"@, v.build_name);
    let a5 = a4 + enc_opt_str("buildNumber"@, v.build_number);
    let a6 = a5 + enc_opt_str("buildUrl"@, v.build_url);
    let a7 = a6 + enc_opt_str("repositoryName"@, v.repository_name);
    let a8 = a7 + enc_opt_str("repositoryUrl"@, v.repository_url);
    let a9 = a8 + enc_opt_str("commit"@, v.commit);
    let a10 = a9 + enc_opt_str("branchName"@, v.branch_name);
    let a11 = a10 + enc_opt_str("osPlatform"@, v.os_platform);
    let a12 = a11 + enc_opt_str("osRelease"@, v.os_release);
    let a13 = a12 + enc_opt_str("osVersion"@, v.os_version);
    let a14 = a13 + enc_opt_str("testEnvironment"@, v.test_environment);
    assert(environment_pairs(v) == a14 + v.extra);
    crate::codec::lemma_lookup_concat(a14, v.extra, "commit"@);
    crate::codec::lemma_lookup_concat(a13, enc_opt_str("testEnvironment"@, v.test_environment), "commit"@);
    crate::codec::lemma_lookup_concat(a12, enc_opt_str("osVersion"@, v.os_version), "commit"@);
    crate::codec::lemma_lookup_concat(a11, enc_opt_str("osRelease"@, v.os_release), "commit"@);
    crate::codec::lemma_lookup_concat(a10, enc_opt_str("osPlatform"@, v.os_platform), "commit"@);
    crate::codec::lemma_lookup_concat(a9, enc_opt_str("branchName"@, v.branch_name), "commit"@);
    crate::codec::lemma_lookup_concat(a8, enc_opt_str("commit"@, v.commit), "commit"@);
    crate::codec::lemma_lookup_concat(a7, enc_opt_str("repositoryUrl"@, v.repository_url), "commit"@);
    crate::codec::lemma_lookup_concat(a6, enc_opt_str("repositoryName"@, v.repository_name), "commit"@);
    crate::codec::lemma_lookup_concat(a5, enc_opt_str("buildUrl"@, v.build_url), "commit"@);
    crate::codec::lemma_lookup_concat(a4, enc_opt_str("buildNumber"@, v.build_number), "commit"@);
    crate::codec::lemma_lookup_concat(a3, enc_opt_str("buildName"@, v.build_name), "commit"@);
    crate::codec::lemma_lookup_concat(a2, enc_opt_str("appVersion"@, v.app_version), "commit"@);
    crate::codec::lemma_lookup_concat(a1, enc_opt_str("appName"@, v.app_name), "commit"@);
    crate::codec::lemma_lookup_opt_seg("reportName"@, v.report_name, "commit"@);
    crate::codec::lemma_lookup_opt_seg("appName"@, v.app_name, "commit"@);
    crate::codec::lemma_lookup_opt_seg("appVersion"@, v.app_version, "commit"@);
    crate::codec::lemma_lookup_opt_seg("buildName"@, v.build_name, "commit"@);
    crate::codec::lemma_lookup_opt_seg("buildNumber"@, v.build_number, "commit"@);
    crate::codec::lemma_lookup_opt_seg("buildUrl"@, v.build_url, "commit"@);
    crate::codec::lemma_lookup_opt_seg("repositoryName"@, v.repository_name, "commit"@);
    crate::codec::lemma_lookup_opt_seg("repositoryUrl"@, v.repository_url, "commit"@);
    crate::codec::lemma_lookup_opt_seg("commit"@, v.commit, "commit"@);
    crate::codec::lemma_lookup_opt_seg("branchName"@, v.branch_name, "commit"@);
    crate::codec::lemma_lookup_opt_seg("osPlatform"@, v.os_platform, "commit"@);
    crate::codec::lemma_lookup_opt_seg("osRelease"@, v.os_release, "commit"@);
    crate::codec::lemma_lookup_opt_seg("osVersion"@, v.os_version, "commit"@);
    crate::codec::lemma_lookup_opt_seg("testEnvironment"@, v.test_environment, "commit"@);
    assert forall|j: int| 0 <= j < v.extra.len() implies (#[trigger] v.extra[j]).0 != "commit"@ by {
        assert(environment_typed_keys().contains("commit"@));
    }
    crate::extra::lemma_lookup_absent(v.extra, "commit"@);
}

/// Where the `branchName` member stands in an encoded environment.
#[verifier::rlimit(60)]
#[verifier::spinoff_prover]
proof fn lemma_env_lookup_branch_name(v: EnvironmentView)
    requires
        forall|j: int| 0 <= j < v.extra.len() ==> !environment_typed_keys().contains(
            (#[trigger] v.extra[j]).0,
        ),
    ensures
        dec_opt_str(environment_pairs(v), "branchName"@) == Some(v.branch_name),
{
    reveal_strlit("branchName");
    reveal_strlit("reportName");
    reveal_strlit("appName");
    reveal_strlit("appVersion");
    reveal_strlit("buildName");
    reveal_strlit("buildNumber");
    reveal_strlit("buildUrl");
    reveal_strlit("repositoryName");
    reveal_strlit("repositoryUrl");
    reveal_strlit("commit");
    reveal_strlit("osPlatform");
    reveal_strlit("osRelease");
    reveal_strlit("osVersion");
    reveal_strlit("testEnvironment");
    assert("reportName"@ != "branchName"@) by {
        assert("reportName"@[0] != "branchName"@[0]);
    }
    assert("appName"@ != "branchName"@) by {
        assert("appName"@.len() == 7 && "branchName"@.len() == 10);
    }
    assert("appVersion"@ != "branchName"@) by {
        assert("appVersion"@[0] != "branchName"@[0]);
    }
    assert("buildName"@ != "branchName"@) by {
        assert("buildName"@.len() == 9 && "branchName"@.len() == 10);
    }
    assert("buildNumber"@ != "branchName"@) by {
        assert("buildNumber"@.len() == 11 && "branchName"@.len() == 10);
    }
    assert("buildUrl"@ != "branchName"@) by {
        assert("buildUrl"@.len() == 8 && "branchName"@.len() == 10);
    }
    assert("repositoryName"@ != "branchName"@) by {
        assert("repositoryName"@.len() == 14 && "branchName"@.len() == 10);
    }
    assert("repositoryUrl"@ != "branchName"@) by {
        assert("repositoryUrl"@.len() == 13 && "branchName"@.len() == 10);
    }
    assert("commit"@ != "branchName"@) by {
        assert("commit"@.len() == 6 && "branchName"@.len() == 10);
    }
    assert("osPlatform"@ != "branchName"@) by {
        assert("osPlatform"@[0] != "branchName"@[0]);
    }
    assert("osRelease"@ != "branchName"@) by {
        assert("osRelease"@.len() == 9 && "branchName"@.len() == 10);
    }
    assert("osVersion"@ != "branchName"@) by {
        assert("osVersion"@.len() == 9 && "branchName"@.len() == 10);
    }
    assert("testEnvironment"@ != "branchName"@) by {
        assert("testEnvironment"@.len() == 15 && "branchName"@.len() == 10);
    }
    let a1 = enc_opt_str("reportName"@, v.report_name);
    let a2 = a1 + enc_opt_str("appName"@, v.app_name);
    let a3 = a2 + enc_opt_str("appVersion"@, v.app_version);
    let a4 = a3 + enc_opt_str("buildName"@, v.build_name);
    let a5 = a4 + enc_opt_str("buildNumber"@, v.build_number);
    let a6 = a5 + enc_opt_str("buildUrl"@, v.build_url);
    let a7 = a6 + enc_opt_str("repositoryName"@, v.repository_name);
    let a8 = a7 + enc_opt_str("repositoryUrl"@, v.repository_url);
    let a9 = a8 + enc_opt_str("commit"@, v.commit);
    let a10 = a9 + enc_opt_str("branchName"@, v.branch_name);
    let a11 = a10 + enc_opt_str("osPlatform"@, v.os_platform);
    let a12 = a11 + enc_opt_str("osRelease"@, v.os_release);
    let a13 = a12 + enc_opt_str("osVersion"@, v.os_version);
    let a14 = a13 + enc_opt_str("testEnvironment"@, v.test_environment);
    assert(environment_pairs(v) == a14 + v.extra);
    crate::codec::lemma_lookup_concat(a14, v.extra, "branchName"@);
    crate::codec::lemma_lookup_concat(a13, enc_opt_str("testEnvironment"@, v.test_environment), "branchName"@);
    crate::codec::lemma_lookup_concat(a12, enc_opt_str("osVersion"@, v.os_version), "branchName"@);
    crate::codec::lemma_lookup_concat(a11, enc_opt_str("osRelease"@, v.os_release), "branchName"@);
    crate::codec::lemma_lookup_concat(a10, enc_opt_str("osPlatform"@, v.os_platform), "branchName"@);
    crate::codec::lemma_lookup_concat(a9, enc_opt_str("branchName"@, v.branch_name), "branchName"@);
    crate::codec::lemma_lookup_concat(a8, enc_opt_str("commit"@, v.commit), "branchName"@);
    crate::codec::lemma_lookup_concat(a7, enc_opt_str("repositoryUrl"@, v.repository_url), "branchName"@);
    crate::codec::lemma_lookup_concat(a6, enc_opt_str("repositoryName"@, v.repository_name), "branchName"@);
    crate::codec::lemma_lookup_concat(a5, enc_opt_str("buildUrl"@, v.build_url), "branchName"@);
    crate::codec::lemma_lookup_concat(a4, enc_opt_str("buildNumber"@, v.build_number), "branchName"@);
    crate::codec::lemma_lookup_concat(a3, enc_opt_str("buildName"@, v.build_name), "branchName"@);
    crate::codec::lemma_lookup_concat(a2, enc_opt_str("appVersion"@, v.app_version), "branchName"@);
    crate::codec::lemma_lookup_concat(a1, enc_opt_str("appName"@, v.app_name), "branchName"@);
    crate::codec::lemma_lookup_opt_seg("reportName"@, v.report_name, "branchName"@);
    crate::codec::lemma_lookup_opt_seg("appName"@, v.app_name, "branchName"@);
    crate::codec::lemma_lookup_opt_seg("appVersion"@, v.app_version, "branchName"@);
    crate::codec::lemma_lookup_opt_seg("buildName"@, v.build_name, "branchName"@);
    crate::codec::lemma_lookup_opt_seg("buildNumber"@, v.build_number, "branchName"@);
    crate::codec::lemma_lookup_opt_seg("buildUrl"@, v.build_url, "branchName"@);
    crate::codec::lemma_lookup_opt_seg("repositoryName"@, v.repository_name, "branchName"@);
    crate::codec::lemma_lookup_opt_seg("repositoryUrl"@, v.repository_url, "branchName"@);
    crate::codec::lemma_lookup_opt_seg("commit"@, v.commit, "branchName"@);
    crate::codec::lemma_lookup_opt_seg("branchName"@, v.branch_name, "branchName"@);
    crate::codec::lemma_lookup_opt_seg("osPlatform"@, v.os_platform, "branchName"@);
    crate::codec::lemma_lookup_opt_seg("osRelease"@, v.os_release, "branchName"@);
    crate::codec::lemma_lookup_opt_seg("osVersion"@, v.os_version, "branchName"@);
    crate::codec::lemma_lookup_opt_seg("testEnvironment"@, v.test_environment, "branchName"@);
    assert forall|j: int| 0 <= j < v.extra.len() implies (#[trigger] v.extra[j]).0 != "branchName"@ by {
        assert(environment_typed_keys().contains("branchName"@));
    }
    crate::extra::lemma_lookup_absent(v.extra, "branchName"@);
}

/// Where the `osPlatform` member stands in an encoded environment.
#[verifier::rlimit(60)]
#[verifier::spinoff_prover]
proof fn lemma_env_lookup_os_platform(v: EnvironmentView)
    requires
        forall|j: int| 0 <= j < v.extra.len() ==> !environment_typed_keys().contains(
            (#[trigger] v.extra[j]).0,
        ),
    ensures
        dec_opt_str(environment_pairs(v), "osPlatform"@) == Some(v.os_platform),
{
    reveal_strlit("osPlatform");
    reveal_strlit("reportName");
    reveal_strlit("appName");
    reveal_strlit("appVersion");
    reveal_strlit("buildName");
    reveal_strlit("buildNumber");
    reveal_strlit("buildUrl");
    reveal_strlit("repositoryName");
    reveal_strlit("repositoryUrl");
    reveal_strlit("commit");
    reveal_strlit("branchName");
    reveal_strlit("osRelease");
    reveal_strlit("osVersion");
    reveal_strlit("testEnvironment");
    assert("reportName"@ != "osPlatform"@) by {
        assert("reportName"@[0] != "osPlatform"@[0]);
    }
    assert("appName"@ != "osPlatform"@) by {
        assert("appName"@.len() == 7 && "osPlatform"@.len() == 10);
    }
    assert("appVersion"@ != "osPlatform"@) by {
        assert("appVersion"@[0] != "osPlatform"@[0]);
    }
    assert("buildName"@ != "osPlatform"@) by {
        assert("buildName"@.len() == 9 && "osPlatform"@.len() == 10);
    }
    assert("buildNumber"@ != "osPlatform"@) by {
        assert("buildNumber"@.len() == 11 && "osPlatform"@.len() == 10);
    }
    assert("buildUrl"@ != "osPlatform"@) by {
        assert("buildUrl"@.len() == 8 && "osPlatform"@.len() == 10);
    }
    assert("repositoryName"@ != "osPlatform"@) by {
        assert("repositoryName"@.len() == 14 && "osPlatform"@.len() == 10);
    }
    assert("repositoryUrl"@ != "osPlatform"@) by {
        assert("repositoryUrl"@.len() == 13 && "osPlatform"@.len() == 10);
    }
    assert("commit"@ != "osPlatform"@) by {
        assert("commit"@.len() == 6 && "osPlatform"@.len() == 10);
    }
    assert("branchName"@ != "osPlatform"@) by {
        assert("branchName"@[0] != "osPlatform"@[0]);
    }
    assert("osRelease"@ != "osPlatform"@) by {
        assert("osRelease"@.len() == 9 && "osPlatform"@.len() == 10);
    }
    assert("osVersion"@ != "osPlatform"@) by {
        assert("osVersion"@.len() == 9 && "osPlatform"@.len() == 10);
    }
    assert("testEnvironment"@ != "osPlatform"@) by {
        assert("testEnvironment"@.len() == 15 && "osPlatform"@.len() == 10);
    }
    let a1 = enc_opt_str("reportName"@, v.report_name);
    let a2 = a1 + enc_opt_str("appName"@, v.app_name);
    let a3 = a2 + enc_opt_str("appVersion"@, v.app_version);
    let a4 = a3 + enc_opt_str("buildName"@, v.build_name);
    let a5 = a4 + enc_opt_str("buildNumber"@, v.build_number);
    let a6 = a5 + enc_opt_str("buildUrl"@, v.build_url);
    let a7 = a6 + enc_opt_str("repositoryName"@, v.repository_name);
    let a8 = a7 + enc_opt_str("repositoryUrl"@, v.repository_url);
    let a9 = a8 + enc_opt_str("commit"@, v.commit);
    let a10 = a9 + enc_opt_str("branchName"@, v.branch_name);
    let a11 = a10 + enc_opt_str("osPlatform"@, v.os_platform);
    let a12 = a11 + enc_opt_str("osRelease"@, v.os_release);
    let a13 = a12 + enc_opt_str("osVersion"@, v.os_version);
    let a14 = a13 + enc_opt_str("testEnvironment"@, v.test_environment);
    assert(environment_pairs(v) == a14 + v.extra);
    crate::codec::lemma_lookup_concat(a14, v.extra, "osPlatform"@);
    crate::codec::lemma_lookup_concat(a13, enc_opt_str("testEnvironment"@, v.test_environment), "osPlatform"@);
    crate::codec::lemma_lookup_concat(a12, enc_opt_str("osVersion"@, v.os_version), "osPlatform"@);
    crate::codec::lemma_lookup_concat(a11, enc_opt_str("osRelease"@, v.os_release), "osPlatform"@);
    crate::codec::lemma_lookup_concat(a10, enc_opt_str("osPlatform"@, v.os_platform), "osPlatform"@);
    crate::codec::lemma_lookup_concat(a9, enc_opt_str("branchName"@, v.branch_name), "osPlatform"@);
    crate::codec::lemma_lookup_concat(a8, enc_opt_str("commit"@, v.commit), "osPlatform"@);
    crate::codec::lemma_lookup_concat(a7, enc_opt_str("repositoryUrl"@, v.repository_url), "osPlatform"@);
    crate::codec::lemma_lookup_concat(a6, enc_opt_str("repositoryName"@, v.repository_name), "osPlatform"@);
    crate::codec::lemma_lookup_concat(a5, enc_opt_str("buildUrl"@, v.build_url), "osPlatform"@);
    crate::codec::lemma_lookup_concat(a4, enc_opt_str("buildNumber"@, v.build_number), "osPlatform"@);
    crate::codec::lemma_lookup_concat(a3, enc_opt_str("buildName"@, v.build_name), "osPlatform"@);
    crate::codec::lemma_lookup_concat(a2, enc_opt_str("appVersion"@, v.app_version), "osPlatform"@);
    crate::codec::lemma_lookup_concat(a1, enc_opt_str("appName"@, v.app_name), "osPlatform"@);
    crate::codec::lemma_lookup_opt_seg("reportName"@, v.report_name, "osPlatform"@);
    crate::codec::lemma_lookup_opt_seg("appName"@, v.app_name, "osPlatform"@);
    crate::codec::lemma_lookup_opt_seg("appVersion"@, v.app_version, "osPlatform"@);
    crate::codec::lemma_lookup_opt_seg("buildName"@, v.build_name, "osPlatform"@);
    crate::codec::lemma_lookup_opt_seg("buildNumber"@, v.build_number, "osPlatform"@);
    crate::codec::lemma_lookup_opt_seg("buildUrl"@, v.build_url, "osPlatform"@);
    crate::codec::lemma_lookup_opt_seg("repositoryName"@, v.repository_name, "osPlatform"@);
    crate::codec::lemma_lookup_opt_seg("repositoryUrl"@, v.repository_url, "osPlatform"@);
    crate::codec::lemma_lookup_opt_seg("commit"@, v.commit, "osPlatform"@);
    crate::codec::lemma_lookup_opt_seg("branchName"@, v.branch_name, "osPlatform"@);
    crate::codec::lemma_lookup_opt_seg("osPlatform"@, v.os_platform, "osPlatform"@);
    crate::codec::lemma_lookup_opt_seg("osRelease"@, v.os_release, "osPlatform"@);
    crate::codec::lemma_lookup_opt_seg("osVersion"@, v.os_version, "osPlatform"@);
    crate::codec::lemma_lookup_opt_seg("testEnvironment"@, v.test_environment, "osPlatform"@);
    assert forall|j: int| 0 <= j < v.extra.len() implies (#[trigger] v.extra[j]).0 != "osPlatform"@ by {
        assert(environment_typed_keys().contains("osPlatform"@));
    }
    crate::extra::lemma_lookup_absent(v.extra, "osPlatform"@);
}

/// Where the `osRelease` member stands in an encoded environment.
#[verifier::rlimit(60)]
#[verifier::spinoff_prover]
proof fn lemma_env_lookup_os_release(v: EnvironmentView)
    requires
        forall|j: int| 0 <= j < v.extra.len() ==> !environment_typed_keys().contains(
            (#[trigger] v.extra[j]).0,
        ),
    ensures
        dec_opt_str(environment_pairs(v), "osRelease"@) == Some(v.os_release),
{
    reveal_strlit("osRelease");
    reveal_strlit("reportName");
    reveal_strlit("appName");
    reveal_strlit("appVersion");
    reveal_strlit("buildName");
    reveal_strlit("buildNumber");
    reveal_strlit("buildUrl");
    reveal_strlit("repositoryName");
    reveal_strlit("repositoryUrl");
    reveal_strlit("commit");
    reveal_strlit("branchName");
    reveal_strlit("osPlatform");
    reveal_strlit("osVersion");
    reveal_strlit("testEnvironment");
    assert("reportName"@ != "osRelease"@) by {
        assert("reportName"@.len() == 10 && "osRelease"@.len() == 9);
    }
    assert("appName"@ != "osRelease"@) by {
        assert("appName"@.len() == 7 && "osRelease"@.len() == 9);
    }
    assert("appVersion"@ != "osRelease"@) by {
        assert("appVersion"@.len() == 10 && "osRelease"@.len() == 9);
    }
    assert("buildName"@ != "osRelease"@) by {
        assert("buildName"@[0] != "osRelease"@[0]);
    }
    assert("buildNumber"@ != "osRelease"@) by {
        assert("buildNumber"@.len() == 11 && "osRelease"@.len() == 9);
    }
    assert("buildUrl"@ != "osRelease"@) by {
        assert("buildUrl"@.len() == 8 && "osRelease"@.len() == 9);
    }
    assert("repositoryName"@ != "osRelease"@) by {
        assert("repositoryName"@.len() == 14 && "osRelease"@.len() == 9);
    }
    assert("repositoryUrl"@ != "osRelease"@) by {
        assert("repositoryUrl"@.len() == 13 && "osRelease"@.len() == 9);
    }
    assert("commit"@ != "osRelease"@) by {
        assert("commit"@.len() == 6 && "osRelease"@.len() == 9);
    }
    assert("branchName"@ != "osRelease"@) by {
        assert("branchName"@.len() == 10 && "osRelease"@.len() == 9);
    }
    assert("osPlatform"@ != "osRelease"@) by {
        assert("osPlatform"@.len() == 10 && "osRelease"@.len() == 9);
    }
    assert("osVersion"@ != "osRelease"@) by {
        assert("osVersion"@[2] != "osRelease"@[2]);
    }
    assert("testEnvironment"@ != "osRelease"@) by {
        assert("testEnvironment"@.len() == 15 && "osRelease"@.len() == 9);
    }
    let a1 = enc_opt_str("reportName"@, v.report_name);
    let a2 = a1 + enc_opt_str("appName"@, v.app_name);
    let a3 = a2 + enc_opt_str("appVersion"@, v.app_version);
    let a4 = a3 + enc_opt_str("buildName"@, v.build_name);
    let a5 = a4 + enc_opt_str("buildNumber"@, v.build_number);
    let a6 = a5 + enc_opt_str("buildUrl"@, v.build_url);
    let a7 = a6 + enc_opt_str("repositoryName"@, v.repository_name);
    let a8 = a7 + enc_opt_str("repositoryUrl"@, v.repository_url);
    let a9 = a8 + enc_opt_str("commit"@, v.commit);
    let a10 = a9 + enc_opt_str("branchName"@, v.branch_name);
    let a11 = a10 + enc_opt_str("osPlatform"@, v.os_platform);
    let a12 = a11 + enc_opt_str("osRelease"@, v.os_release);
    let a13 = a12 + enc_opt_str("osVersion"@, v.os_version);
    let a14 = a13 + enc_opt_str("testEnvironment"@, v.test_environment);
    assert(environment_pairs(v) == a14 + v.extra);
    crate::codec::lemma_lookup_concat(a14, v.extra, "osRelease"@);
    crate::codec::lemma_lookup_concat(a13, enc_opt_str("testEnvironment"@, v.test_environment), "osRelease"@);
    crate::codec::lemma_lookup_concat(a12, enc_opt_str("osVersion"@, v.os_version), "osRelease"@);
    crate::codec::lemma_lookup_concat(a11, enc_opt_str("osRelease"@, v.os_release), "osRelease"@);
    crate::codec::lemma_lookup_concat(a10, enc_opt_str("osPlatform"@, v.os_platform), "osRelease"@);
    crate::codec::lemma_lookup_concat(a9, enc_opt_str("branchName"@, v.branch_name), "osRelease"@);
    crate::codec::lemma_lookup_concat(a8, enc_opt_str("commit"@, v.commit), "osRelease"@);
    crate::codec::lemma_lookup_concat(a7, enc_opt_str("repositoryUrl"@, v.repository_url), "osRelease"@);
    crate::codec::lemma_lookup_concat(a6, enc_opt_str("repositoryName"@, v.repository_name), "osRelease"@);
    crate::codec::lemma_lookup_concat(a5, enc_opt_str("buildUrl"@, v.build_url), "osRelease"@);
    crate::codec::lemma_lookup_concat(a4, enc_opt_str("buildNumber"@, v.build_number), "osRelease"@);
    crate::codec::lemma_lookup_concat(a3, enc_opt_str("buildName"@, v.build_name), "osRelease"@);
    crate::codec::lemma_lookup_concat(a2, enc_opt_str("appVersion"@, v.app_version), "osRelease"@);
    crate::codec::lemma_lookup_concat(a1, enc_opt_str("appName"@, v.app_name), "osRelease"@);
    crate::codec::lemma_lookup_opt_seg("reportName"@, v.report_name, "osRelease"@);
    crate::codec::lemma_lookup_opt_seg("appName"@, v.app_name, "osRelease"@);
    crate::codec::lemma_lookup_opt_seg("appVersion"@, v.app_version, "osRelease"@);
    crate::codec::lemma_lookup_opt_seg("buildName"@, v.build_name, "osRelease"@);
    crate::codec::lemma_lookup_opt_seg("buildNumber"@, v.build_number, "osRelease"@);
    crate::codec::lemma_lookup_opt_seg("buildUrl"@, v.build_url, "osRelease"@);
    crate::codec::lemma_lookup_opt_seg("repositoryName"@, v.repository_name, "osRelease"@);
    crate::codec::lemma_lookup_opt_seg("repositoryUrl"@, v.repository_url, "osRelease"@);
    crate::codec::lemma_lookup_opt_seg("commit"@, v.commit, "osRelease"@);
    crate::codec::lemma_lookup_opt_seg("branchName"@, v.branch_name, "osRelease"@);
    crate::codec::lemma_lookup_opt_seg("osPlatform"@, v.os_platform, "osRelease"@);
    crate::codec::lemma_lookup_opt_seg("osRelease"@, v.os_release, "osRelease"@);
    crate::codec::lemma_lookup_opt_seg("osVersion"@, v.os_version, "osRelease"@);
    crate::codec::lemma_lookup_opt_seg("testEnvironment"@, v.test_environment, "osRelease"@);
    assert forall|j: int| 0 <= j < v.extra.len() implies (#[trigger] v.extra[j]).0 != "osRelease"@ by {
        assert(environment_typed_keys().contains("osRelease"@));
    }
    crate::extra::lemma_lookup_absent(v.extra, "osRelease"@);
}

/// Where the `osVersion` member stands in an encoded environment.
#[verifier::rlimit(60)]
#[verifier::spinoff_prover]
proof fn lemma_env_lookup_os_version(v: EnvironmentView)
    requires
        forall|j: int| 0 <= j < v.extra.len() ==> !environment_typed_keys().contains(
            (#[trigger] v.extra[j]).0,
        ),
    ensures
        dec_opt_str(environment_pairs(v), "osVersion"@) == Some(v.os_version),
{
    reveal_strlit("osVersion");
    reveal_strlit("reportName");
    reveal_strlit("appName");
    reveal_strlit("appVersion");
    reveal_strlit("buildName");
    reveal_strlit("buildNumber");
    reveal_strlit("buildUrl");
    reveal_strlit("repositoryName");
    reveal_strlit("repositoryUrl");
    reveal_strlit("commit");
    reveal_strlit("branchName");
    reveal_strlit("osPlatform");
    reveal_strlit("osRelease");
    reveal_strlit("testEnvironment");
    assert("reportName"@ != "osVersion"@) by {
        assert("reportName"@.len() == 10 && "osVersion"@.len() == 9);
    }
    assert("appName"@ != "osVersion"@) by {
        assert("appName"@.len() == 7 && "osVersion"@.len() == 9);
    }
    assert("appVersion"@ != "osVersion"@) by {
        assert("appVersion"@.len() == 10 && "osVersion"@.len() == 9);
    }
    assert("buildName"@ != "osVersion"@) by {
        assert("buildName"@[0] != "osVersion"@[0]);
    }
    assert("buildNumber"@ != "osVersion"@) by {
        assert("buildNumber"@.len() == 11 && "osVersion"@.len() == 9);
    }
    assert("buildUrl"@ != "osVersion"@) by {
        assert("buildUrl"@.len() == 8 && "osVersion"@.len() == 9);
    }
    assert("repositoryName"@ != "osVersion"@) by {
        assert("repositoryName"@.len() == 14 && "osVersion"@.len() == 9);
    }
    assert("repositoryUrl"@ != "osVersion"@) by {
        assert("repositoryUrl"@.len() == 13 && "osVersion"@.len() == 9);
    }
    assert("commit"@ != "osVersion"@) by {
        assert("commit"@.len() == 6 && "osVersion"@.len() == 9);
    }
    assert("branchName"@ != "osVersion"@) by {
        assert("branchName"@.len() == 10 && "osVersion"@.len() == 9);
    }
    assert("osPlatform"@ != "osVersion"@) by {
        assert("osPlatform"@.len() == 10 && "osVersion"@.len() == 9);
    }
    assert("osRelease"@ != "osVersion"@) by {
        assert("osRelease"@[2] != "osVersion"@[2]);
    }
    assert("testEnvironment"@ != "osVersion"@) by {
        assert("testEnvironment"@.len() == 15 && "osVersion"@.len() == 9);
    }
    let a1 = enc_opt_str("reportName"@, v.report_name);
    let a2 = a1 + enc_opt_str("appName"@, v.app_name);
    let a3 = a2 + enc_opt_str("appVersion"@, v.app_version);
    let a4 = a3 + enc_opt_str("buildName"@, v.build_name);
    let a5 = a4 + enc_opt_str("buildNumber"@, v.build_number);
    let a6 = a5 + enc_opt_str("buildUrl"@, v.build_url);
    let a7 = a6 + enc_opt_str("repositoryName"@, v.repository_name);
    let a8 = a7 + enc_opt_str("repositoryUrl"@, v.repository_url);
    let a9 = a8 + enc_opt_str("commit"@, v.commit);
    let a10 = a9 + enc_opt_str("branchName"@, v.branch_name);
    let a11 = a10 + enc_opt_str("osPlatform"@, v.os_platform);
    let a12 = a11 + enc_opt_str("osRelease"@, v.os_release);
    let a13 = a12 + enc_opt_str("osVersion"@, v.os_version);
    let a14 = a13 + enc_opt_str("testEnvironment"@, v.test_environment);
    assert(environment_pairs(v) == a14 + v.extra);
    crate::codec::lemma_lookup_concat(a14, v.extra, "osVersion"@);
    crate::codec::lemma_lookup_concat(a13, enc_opt_str("testEnvironment"@, v.test_environment), "osVersion"@);
    crate::codec::lemma_lookup_concat(a12, enc_opt_str("osVersion"@, v.os_version), "osVersion"@);
    crate::codec::lemma_lookup_concat(a11, enc_opt_str("osRelease"@, v.os_release), "osVersion"@);
    crate::codec::lemma_lookup_concat(a10, enc_opt_str("osPlatform"@, v.os_platform), "osVersion"@);
    crate::codec::lemma_lookup_concat(a9, enc_opt_str("branchName"@, v.branch_name), "osVersion"@);
    crate::codec::lemma_lookup_concat(a8, enc_opt_str("commit"@, v.commit), "osVersion"@);
    crate::codec::lemma_lookup_concat(a7, enc_opt_str("repositoryUrl"@, v.repository_url), "osVersion"@);
    crate::codec::lemma_lookup_concat(a6, enc_opt_str("repositoryName"@, v.repository_name), "osVersion"@);
    crate::codec::lemma_lookup_concat(a5, enc_opt_str("buildUrl"@, v.build_url), "osVersion"@);
    crate::codec::lemma_lookup_concat(a4, enc_opt_str("buildNumber"@, v.build_number), "osVersion"@);
    crate::codec::lemma_lookup_concat(a3, enc_opt_str("buildName"@, v.build_name), "osVersion"@);
    crate::codec::lemma_lookup_concat(a2, enc_opt_str("appVersion"@, v.app_version), "osVersion"@);
    crate::codec::lemma_lookup_concat(a1, enc_opt_str("appName"@, v.app_name), "osVersion"@);
    crate::codec::lemma_lookup_opt_seg("reportName"@, v.report_name, "osVersion"@);
    crate::codec::lemma_lookup_opt_seg("appName"@, v.app_name, "osVersion"@);
    crate::codec::lemma_lookup_opt_seg("appVersion"@, v.app_version, "osVersion"@);
    crate::codec::lemma_lookup_opt_seg("buildName"@, v.build_name, "osVersion"@);
    crate::codec::lemma_lookup_opt_seg("buildNumber"@, v.build_number, "osVersion"@);
    crate::codec::lemma_lookup_opt_seg("buildUrl"@, v.build_url, "osVersion"@);
    crate::codec::lemma_lookup_opt_seg("repositoryName"@, v.repository_name, "osVersion"@);
    crate::codec::lemma_lookup_opt_seg("repositoryUrl"@, v.repository_url, "osVersion"@);
    crate::codec::lemma_lookup_opt_seg("commit"@, v.commit, "osVersion"@);
    crate::codec::lemma_lookup_opt_seg("branchName"@, v.branch_name, "osVersion"@);
    crate::codec::lemma_lookup_opt_seg("osPlatform"@, v.os_platform, "osVersion"@);
    crate::codec::lemma_lookup_opt_seg("osRelease"@, v.os_release, "osVersion"@);
    crate::codec::lemma_lookup_opt_seg("osVersion"@, v.os_version, "osVersion"@);
    crate::codec::lemma_lookup_opt_seg("testEnvironment"@, v.test_environment, "osVersion"@);
    assert forall|j: int| 0 <= j < v.extra.len() implies (#[trigger] v.extra[j]).0 != "osVersion"@ by {
        assert(environment_typed_keys().contains("osVersion"@));
    }
    crate::extra::lemma_lookup_absent(v.extra, "osVersion"@);
}

/// Where the `testEnvironment` member stands in an encoded environment.
#[verifier::rlimit(60)]
#[verifier::spinoff_prover]
proof fn lemma_env_lookup_test_environment(v: EnvironmentView)
    requires
        forall|j: int| 0 <= j < v.extra.len() ==> !environment_typed_keys().contains(
            (#[trigger] v.extra[j]).0,
        ),
    ensures
        dec_opt_str(environment_pairs(v), "testEnvironment"@) == Some(v.test_environment),
{
    reveal_strlit("testEnvironment");
    reveal_strlit("reportName");
    reveal_strlit("appName");
    reveal_strlit("appVersion");
    reveal_strlit("buildName");
    reveal_strlit("buildNumber");
    reveal_strlit("buildUrl");
    reveal_strlit("repositoryName");
    reveal_strlit("repositoryUrl");
    reveal_strlit("commit");
    reveal_strlit("branchName");
    reveal_strlit("osPlatform");
    reveal_strlit("osRelease");
    reveal_strlit("osVersion");
    assert("reportName"@ != "testEnvironment"@) by {
        assert("reportName"@.len() == 10 && "testEnvironment"@.len() == 15);
    }
    assert("appName"@ != "testEnvironment"@) by {
        assert("appName"@.len() == 7 && "testEnvironment"@.len() == 15);
    }
    assert("appVersion"@ != "testEnvironment"@) by {
        assert("appVersion"@.len() == 10 && "testEnvironment"@.len() == 15);
    }
    assert("buildName"@ != "testEnvironment"@) by {
        assert("buildName"@.len() == 9 && "testEnvironment"@.len() == 15);
    }
    assert("buildNumber"@ != "testEnvironment"@) by {
        assert("buildNumber"@.len() == 11 && "testEnvironment"@.len() == 15);
    }
    assert("buildUrl"@ != "testEnvironment"@) by {
        assert("buildUrl"@.len() == 8 && "testEnvironment"@.len() == 15);
    }
    assert("repositoryName"@ != "testEnvironment"@) by {
        assert("repositoryName"@.len() == 14 && "testEnvironment"@.len() == 15);
    }
    assert("repositoryUrl"@ != "testEnvironment"@) by {
        assert("repositoryUrl"@.len() == 13 && "testEnvironment"@.len() == 15);
    }
    assert("commit"@ != "testEnvironment"@) by {
        assert("commit"@.len() == 6 && "testEnvironment"@.len() == 15);
    }
    assert("branchName"@ != "testEnvironment"@) by {
        assert("branchName"@.len() == 10 && "testEnvironment"@.len() == 15);
    }
    assert("osPlatform"@ != "testEnvironment"@) by {
        assert("osPlatform"@.len() == 10 && "testEnvironment"@.len() == 15);
    }
    assert("osRelease"@ != "testEnvironment"@) by {
        assert("osRelease"@.len() == 9 && "testEnvironment"@.len() == 15);
    }
    assert("osVersion"@ != "testEnvironment"@) by {
        assert("osVersion"@.len() == 9 && "testEnvironment"@.len() == 15);
    }
    let a1 = enc_opt_str("reportName"@, v.report_name);
    let a2 = a1 + enc_opt_str("appName"@, v.app_name);
    let a3 = a2 + enc_opt_str("appVersion"@, v.app_version);
    let a4 = a3 + enc_opt_str("buildName"@, v.build_name);
    let a5 = a4 + enc_opt_str("buildNumber"@, v.build_number);
    let a6 = a5 + enc_opt_str("buildUrl"@, v.build_url);
    let a7 = a6 + enc_opt_str("repositoryName"@, v.repository_name);
    let a8 = a7 + enc_opt_str("repositoryUrl"@, v.repository_url);
    let a9 = a8 + enc_opt_str("commit"@, v.commit);
    let a10 = a9 + enc_opt_str("branchName"@, v.branch_name);
    let a11 = a10 + enc_opt_str("osPlatform"@, v.os_platform);
    let a12 = a11 + enc_opt_str("osRelease"@, v.os_release);
    let a13 = a12 + enc_opt_str("osVersion"@, v.os_version);
    let a14 = a13 + enc_opt_str("testEnvironment"@, v.test_environment);
    assert(environment_pairs(v) == a14 + v.extra);
    crate::codec::lemma_lookup_concat(a14, v.extra, "testEnvironment"@);
    crate::codec::lemma_lookup_concat(a13, enc_opt_str("testEnvironment"@, v.test_environment), "testEnvironment"@);
    crate::codec::lemma_lookup_concat(a12, enc_opt_str("osVersion"@, v.os_version), "testEnvironment"@);
    crate::codec::lemma_lookup_concat(a11, enc_opt_str("osRelease"@, v.os_release), "testEnvironment"@);
    crate::codec::lemma_lookup_concat(a10, enc_opt_str("osPlatform"@, v.os_platform), "testEnvironment"@);
    crate::codec::lemma_lookup_concat(a9, enc_opt_str("branchName"@, v.branch_name), "testEnvironment"@);
    crate::codec::lemma_lookup_concat(a8, enc_opt_str("commit"@, v.commit), "testEnvironment"@);
    crate::codec::lemma_lookup_concat(a7, enc_opt_str("repositoryUrl"@, v.repository_url), "testEnvironment"@);
    crate::codec::lemma_lookup_concat(a6, enc_opt_str("repositoryName"@, v.repository_name), "testEnvironment"@);
    crate::codec::lemma_lookup_concat(a5, enc_opt_str("buildUrl"@, v.build_url), "testEnvironment"@);
    crate::codec::lemma_lookup_concat(a4, enc_opt_str("buildNumber"@, v.build_number), "testEnvironment"@);
    crate::codec::lemma_lookup_concat(a3, enc_opt_str("buildName"@, v.build_name), "testEnvironment"@);
    crate::codec::lemma_lookup_concat(a2, enc_opt_str("appVersion"@, v.app_version), "testEnvironment"@);
    crate::codec::lemma_lookup_concat(a1, enc_opt_str("appName"@, v.app_name), "testEnvironment"@);
    crate::codec::lemma_lookup_opt_seg("reportName"@, v.report_name, "testEnvironment"@);
    crate::codec::lemma_lookup_opt_seg("appName"@, v.app_name, "testEnvironment"@);
    crate::codec::lemma_lookup_opt_seg("appVersion"@, v.app_version, "testEnvironment"@);
    crate::codec::lemma_lookup_opt_seg("buildName"@, v.build_name, "testEnvironment"@);
    crate::codec::lemma_lookup_opt_seg("buildNumber"@, v.build_number, "testEnvironment"@);
    crate::codec::lemma_lookup_opt_seg("buildUrl"@, v.build_url, "testEnvironment"@);
    crate::codec::lemma_lookup_opt_seg("repositoryName"@, v.repository_name, "testEnvironment"@);
    crate::codec::lemma_lookup_opt_seg("repositoryUrl"@, v.repository_url, "testEnvironment"@);
    crate::codec::lemma_lookup_opt_seg("commit"@, v.commit, "testEnvironment"@);
    crate::codec::lemma_lookup_opt_seg("branchName"@, v.branch_name, "testEnvironment"@);
    crate::codec::lemma_lookup_opt_seg("osPlatform"@, v.os_platform, "testEnvironment"@);
    crate::codec::lemma_lookup_opt_seg("osRelease"@, v.os_release, "testEnvironment"@);
    crate::codec::lemma_lookup_opt_seg("osVersion"@, v.os_version, "testEnvironment"@);
    crate::codec::lemma_lookup_opt_seg("testEnvironment"@, v.test_environment, "testEnvironment"@);
    assert forall|j: int| 0 <= j < v.extra.len() implies (#[trigger] v.extra[j]).0 != "testEnvironment"@ by {
        assert(environment_typed_keys().contains("testEnvironment"@));
    }
    crate::extra::lemma_lookup_absent(v.extra, "testEnvironment"@);
}

/// The slot an encoded environment's members fold back to: exactly the
/// slot that was inlined.
#[verifier::rlimit(100)]
#[verifier::spinoff_prover]
proof fn lemma_env_extras(v: EnvironmentView)
    requires
        crate::extra::unique_keys(v.extra),
        forall|j: int| 0 <= j < v.extra.len() ==> !environment_typed_keys().contains(
            (#[trigger] v.extra[j]).0,
        ),
    ensures
        crate::codec::extras_of(environment_pairs(v), environment_typed_keys()) == v.extra,
{
    let a1 = enc_opt_str("reportName"@, v.report_name);
    let a2 = a1 + enc_opt_str("appName"@, v.app_name);
    let a3 = a2 + enc_opt_str("appVersion"@, v.app_version);
    let a4 = a3 + enc_opt_str("buildName"@, v.build_name);
    let a5 = a4 + enc_opt_str("buildNumber"@, v.build_number);
    let a6 = a5 + enc_opt_str("buildUrl"@, v.build_url);
    let a7 = a6 + enc_opt_str("repositoryName"@, v.repository_name);
    let a8 = a7 + enc_opt_str("repositoryUrl"@, v.repository_url);
    let a9 = a8 + enc_opt_str("commit"@, v.commit);
    let a10 = a9 + enc_opt_str("branchName"@, v.branch_name);
    let a11 = a10 + enc_opt_str("osPlatform"@, v.os_platform);
    let a12 = a11 + enc_opt_str("osRelease"@, v.os_release);
    let a13 = a12 + enc_opt_str("osVersion"@, v.os_version);
    let a14 = a13 + enc_opt_str("testEnvironment"@, v.test_environment);
    let t15 = v.extra;
    let t14 = enc_opt_str("testEnvironment"@, v.test_environment) + t15;
    let t13 = enc_opt_str("osVersion"@, v.os_version) + t14;
    let t12 = enc_opt_str("osRelease"@, v.os_release) + t13;
    let t11 = enc_opt_str("osPlatform"@, v.os_platform) + t12;
    let t10 = enc_opt_str("branchName"@, v.branch_name) + t11;
    let t9 = enc_opt_str("commit"@, v.commit) + t10;
    let t8 = enc_opt_str("repositoryUrl"@, v.repository_url) + t9;
    let t7 = enc_opt_str("repositoryName"@, v.repository_name) + t8;
    let t6 = enc_opt_str("buildUrl"@, v.build_url) + t7;
    let t5 = enc_opt_str("buildNumber"@, v.build_number) + t6;
    let t4 = enc_opt_str("buildName"@, v.build_name) + t5;
    let t3 = enc_opt_str("appVersion"@, v.app_version) + t4;
    let t2 = enc_opt_str("appName"@, v.app_name) + t3;
    let t1 = enc_opt_str("reportName"@, v.report_name) + t2;
    assert(environment_pairs(v) == a14 + t15);
    assert(a14 + t15 =~= a13 + t14);
    assert(a13 + t14 =~= a12 + t13);
    assert(a12 + t13 =~= a11 + t12);
    assert(a11 + t12 =~= a10 + t11);
    assert(a10 + t11 =~= a9 + t10);
    assert(a9 + t10 =~= a8 + t9);
    assert(a8 + t9 =~= a7 + t8);
    assert(a7 + t8 =~= a6 + t7);
    assert(a6 + t7 =~= a5 + t6);
    assert(a5 + t6 =~= a4 + t5);
    assert(a4 + t5 =~= a3 + t4);
    assert(a3 + t4 =~= a2 + t3);
    assert(a2 + t3 =~= a1 + t2);
    assert(a1 + t2 =~= t1);
    assert(environment_pairs(v) == t1);
    assert(environment_typed_keys().contains("reportName"@));
    crate::codec::lemma_extras_fold_skip_opt("reportName"@, v.report_name, t2, environment_typed_keys(), Seq::empty());
    assert(environment_typed_keys().contains("appName"@));
    crate::codec::lemma_extras_fold_skip_opt("appName"@, v.app_name, t3, environment_typed_keys(), Seq::empty());
    assert(environment_typed_keys().contains("appVersion"@));
    crate::codec::lemma_extras_fold_skip_opt("appVersion"@, v.app_version, t4, environment_typed_keys(), Seq::empty());
    assert(environment_typed_keys().contains("buildName"@));
    crate::codec::lemma_extras_fold_skip_opt("buildName"@, v.build_name, t5, environment_typed_keys(), Seq::empty());
    assert(environment_typed_keys().contains("buildNumber"@));
    crate::codec::lemma_extras_fold_skip_opt("buildNumber"@, v.build_number, t6, environment_typed_keys(), Seq::empty());
    assert(environment_typed_keys().contains("buildUrl"@));
    crate::codec::lemma_extras_fold_skip_opt("buildUrl"@, v.build_url, t7, environment_typed_keys(), Seq::empty());
    assert(environment_typed_keys().contains("repositoryName"@));
    crate::codec::lemma_extras_fold_skip_opt("repositoryName"@, v.repository_name, t8, environment_typed_keys(), Seq::empty());
    assert(environment_typed_keys().contains("repositoryUrl"@));
    crate::codec::lemma_extras_fold_skip_opt("repositoryUrl"@, v.repository_url, t9, environment_typed_keys(), Seq::empty());
    assert(environment_typed_keys().contains("commit"@));
    crate::codec::lemma_extras_fold_skip_opt("commit"@, v.commit, t10, environment_typed_keys(), Seq::empty());
    assert(environment_typed_keys().contains("branchName"@));
    crate::codec::lemma_extras_fold_skip_opt("branchName"@, v.branch_name, t11, environment_typed_keys(), Seq::empty());
    assert(environment_typed_keys().contains("osPlatform"@));
    crate::codec::lemma_extras_fold_skip_opt("osPlatform"@, v.os_platform, t12, environment_typed_keys(), Seq::empty());
    assert(environment_typed_keys().contains("osRelease"@));
    crate::codec::lemma_extras_fold_skip_opt("osRelease"@, v.os_release, t13, environment_typed_keys(), Seq::empty());
    assert(environment_typed_keys().contains("osVersion"@));
    crate::codec::lemma_extras_fold_skip_opt("osVersion"@, v.os_version, t14, environment_typed_keys(), Seq::empty());
    assert(environment_typed_keys().contains("testEnvironment"@));
    crate::codec::lemma_extras_fold_skip_opt("testEnvironment"@, v.test_environment, t15, environment_typed_keys(), Seq::empty());
    assert(Seq::<(Seq<char>, JVal)>::empty() + v.extra =~= v.extra);
    crate::codec::lemma_extras_fold_passthrough(v.extra, environment_typed_keys(), Seq::empty());
}

/// Extension round-trip law: encoding an environment and decoding the
/// result yields the same model — every present field, every absent
/// field and every extension member comes back unchanged. The slot's
/// keys must be unique and distinct from the typed wire keys.
#[verifier::rlimit(100)]
#[verifier::spinoff_prover]
pub proof fn lemma_environment_roundtrip(v: EnvironmentView)
    requires
        crate::extra::unique_keys(v.extra),
        forall|j: int| 0 <= j < v.extra.len() ==> !environment_typed_keys().contains(
            (#[trigger] v.extra[j]).0,
        ),
    ensures
        environment_from_json(environment_jval(v)) == Some(v),
{
    lemma_env_lookup_report_name(v);
    lemma_env_lookup_app_name(v);
    lemma_env_lookup_app_version(v);
    lemma_env_lookup_build_name(v);
    lemma_env_lookup_build_number(v);
    lemma_env_lookup_build_url(v);
    lemma_env_lookup_repository_name(v);
    lemma_env_lookup_repository_url(v);
    lemma_env_lookup_commit(v);
    lemma_env_lookup_branch_name(v);
    lemma_env_lookup_os_platform(v);
    lemma_env_lookup_os_release(v);
    lemma_env_lookup_os_version(v);
    lemma_env_lookup_test_environment(v);
    lemma_env_extras(v);
    let p = environment_pairs(v);
    assert(environment_from_pairs(p) matches Some(w) && w =~= v);
}

} // verus!
