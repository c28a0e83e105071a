//! SMTP settings: the model the monitor reads, the legacy TLS fallback, and
//! the field-level form under which the settings store saves and loads them.
//!
//! The persisted settings object is a bag of optional fields; a field absent
//! from the store falls back to a built-in default.  Saving writes one field
//! per present attribute — the explicit TLS mode only when one is set — and
//! loading folds the fields over those defaults, so a configuration survives
//! the round trip field for field.

use vstd::prelude::*;

verus! {

/// How the mail transport negotiates TLS: plaintext, implicit TLS from the
/// first byte, or an in-protocol STARTTLS upgrade.
#[derive(Clone, Copy, PartialEq, Eq, Structural, Debug)]
pub enum TlsMode {
    Plain,
    Ssl,
    Starttls,
}

impl Default for TlsMode {
    /// The mode assumed when nothing says otherwise: implicit TLS.
    fn default() -> (r: TlsMode)
        ensures
            r == TlsMode::Ssl,
    {
        TlsMode::Ssl
    }
}

/// SMTP configuration as the monitor reads it.  `tls_mode` is the explicit
/// mode when the store holds one; `use_tls` is the legacy flag consulted only
/// when the explicit mode is absent.
pub struct SmtpSettings {
    pub host: String,
    pub port: u16,
    pub username: String,
    pub password: String,
    pub from: String,
    pub to: String,
    pub tls_mode: Option<TlsMode>,
    pub use_tls: bool,
}

/// Mathematical model of [`SmtpSettings`].
pub struct SmtpModel {
    pub host: Seq<char>,
    pub port: u16,
    pub username: Seq<char>,
    pub password: Seq<char>,
    pub from: Seq<char>,
    pub to: Seq<char>,
    pub tls_mode: Option<TlsMode>,
    pub use_tls: bool,
}

impl View for SmtpSettings {
    type V = SmtpModel;

    open spec fn view(&self) -> SmtpModel {
        SmtpModel {
            host: self.host@,
            port: self.port,
            username: self.username@,
            password: self.password@,
            from: self.from@,
            to: self.to@,
            tls_mode: self.tls_mode,
            use_tls: self.use_tls,
        }
    }
}

/// The standard implicit-TLS submission port, the default when the store
/// holds no port.
pub fn default_smtp_port() -> (p: u16)
    ensures
        p == 465,
{
    465
}

/// The configuration a fresh store yields: everything empty, the default
/// port, the implicit-TLS mode set explicitly.
pub open spec fn spec_default_settings() -> SmtpModel {
    SmtpModel {
        host: Seq::empty(),
        port: 465,
        username: Seq::empty(),
        password: Seq::empty(),
        from: Seq::empty(),
        to: Seq::empty(),
        tls_mode: Some(TlsMode::Ssl),
        use_tls: false,
    }
}

impl Default for SmtpSettings {
    /// The built-in default configuration.
    fn default() -> (r: SmtpSettings)
        ensures
            r@ == spec_default_settings(),
    {
        let r = SmtpSettings {
            host: String::new(),
            port: default_smtp_port(),
            username: String::new(),
            password: String::new(),
            from: String::new(),
            to: String::new(),
            tls_mode: Some(TlsMode::Ssl),
            use_tls: false,
        };
        proof {
            assert(r@.host =~= spec_default_settings().host);
            assert(r@.username =~= spec_default_settings().username);
            assert(r@.password =~= spec_default_settings().password);
            assert(r@.from =~= spec_default_settings().from);
            assert(r@.to =~= spec_default_settings().to);
        }
        r
    }
}

/// The TLS mode in force: the explicit mode when present, else the legacy
/// flag — `true` means implicit TLS, `false` means plaintext.
pub open spec fn spec_effective_tls(m: SmtpModel) -> TlsMode {
    match m.tls_mode {
        Some(t) => t,
        None => if m.use_tls {
            TlsMode::Ssl
        } else {
            TlsMode::Plain
        },
    }
}

impl SmtpSettings {
    /// The TLS mode in force for this configuration.
    pub fn effective_tls_mode(&self) -> (t: TlsMode)
        ensures
            t == spec_effective_tls(self@),
    {
        match self.tls_mode {
            Some(t) => t,
            None => if self.use_tls {
                TlsMode::Ssl
            } else {
                TlsMode::Plain
            },
        }
    }
}

/// One persisted field of the SMTP configuration.
pub enum SettingField {
    Host(String),
    Port(u16),
    Username(String),
    Password(String),
    From(String),
    To(String),
    Tls(TlsMode),
    UseTls(bool),
}

/// Mathematical model of a persisted field.
pub enum FieldModel {
    Host(Seq<char>),
    Port(u16),
    Username(Seq<char>),
    Password(Seq<char>),
    From(Seq<char>),
    To(Seq<char>),
    Tls(TlsMode),
    UseTls(bool),
}

impl View for SettingField {
    type V = FieldModel;

    open spec fn view(&self) -> FieldModel {
        match self {
            SettingField::Host(s) => FieldModel::Host(s@),
            SettingField::Port(p) => FieldModel::Port(*p),
            SettingField::Username(s) => FieldModel::Username(s@),
            SettingField::Password(s) => FieldModel::Password(s@),
            SettingField::From(s) => FieldModel::From(s@),
            SettingField::To(s) => FieldModel::To(s@),
            SettingField::Tls(t) => FieldModel::Tls(*t),
            SettingField::UseTls(b) => FieldModel::UseTls(*b),
        }
    }
}

/// Model of a field list.
pub open spec fn fields_model(v: Seq<SettingField>) -> Seq<FieldModel> {
    v.map_values(|f: SettingField| f@)
}

/// The configuration a store without any fields yields: every attribute at
/// its loading default — and no explicit TLS mode, so the legacy flag (itself
/// defaulting to off) decides.
pub open spec fn spec_absent_defaults() -> SmtpModel {
    SmtpModel {
        host: Seq::empty(),
        port: 465,
        username: Seq::empty(),
        password: Seq::empty(),
        from: Seq::empty(),
        to: Seq::empty(),
        tls_mode: None,
        use_tls: false,
    }
}

/// One field applied to a configuration being loaded.
pub open spec fn spec_apply_field(m: SmtpModel, f: FieldModel) -> SmtpModel {
    match f {
        FieldModel::Host(s) => SmtpModel { host: s, ..m },
        FieldModel::Port(p) => SmtpModel { port: p, ..m },
        FieldModel::Username(s) => SmtpModel { username: s, ..m },
        FieldModel::Password(s) => SmtpModel { password: s, ..m },
        FieldModel::From(s) => SmtpModel { from: s, ..m },
        FieldModel::To(s) => SmtpModel { to: s, ..m },
        FieldModel::Tls(t) => SmtpModel { tls_mode: Some(t), ..m },
        FieldModel::UseTls(b) => SmtpModel { use_tls: b, ..m },
    }
}

/// Loading: the fields folded, in order, over the loading defaults.
pub open spec fn spec_load(fields: Seq<FieldModel>) -> SmtpModel
    decreases fields.len(),
{
    if fields.len() == 0 {
        spec_absent_defaults()
    } else {
        spec_apply_field(spec_load(fields.drop_last()), fields.last())
    }
}

/// Saving: one field per attribute, the explicit TLS mode only when set.
pub open spec fn spec_save(m: SmtpModel) -> Seq<FieldModel> {
    let base = seq![
        FieldModel::Host(m.host),
        FieldModel::Port(m.port),
        FieldModel::Username(m.username),
        FieldModel::Password(m.password),
        FieldModel::From(m.from),
        FieldModel::To(m.to),
    ];
    let tls = match m.tls_mode {
        Some(t) => seq![FieldModel::Tls(t)],
        None => Seq::<FieldModel>::empty(),
    };
    base + tls + seq![FieldModel::UseTls(m.use_tls)]
}

/// Save this configuration as its persisted fields.
pub fn save_fields(s: &SmtpSettings) -> (r: Vec<SettingField>)
    ensures
        fields_model(r@) == spec_save(s@),
{
    let mut r: Vec<SettingField> = Vec::new();
    r.push(SettingField::Host(s.host.clone()));
    r.push(SettingField::Port(s.port));
    r.push(SettingField::Username(s.username.clone()));
    r.push(SettingField::Password(s.password.clone()));
    r.push(SettingField::From(s.from.clone()));
    r.push(SettingField::To(s.to.clone()));
    match s.tls_mode {
        Some(t) => r.push(SettingField::Tls(t)),
        None => (),
    }
    r.push(SettingField::UseTls(s.use_tls));
    proof {
        assert(fields_model(r@) =~= spec_save(s@));
    }
    r
}

/// Apply one loaded field to a configuration under construction.
fn apply_field(m: &mut SmtpSettings, f: &SettingField)
    ensures
        final(m)@ == spec_apply_field(old(m)@, f@),
{
    match f {
        SettingField::Host(s) => m.host = s.clone(),
        SettingField::Port(p) => m.port = *p,
        SettingField::Username(s) => m.username = s.clone(),
        SettingField::Password(s) => m.password = s.clone(),
        SettingField::From(s) => m.from = s.clone(),
        SettingField::To(s) => m.to = s.clone(),
        SettingField::Tls(t) => m.tls_mode = Some(*t),
        SettingField::UseTls(b) => m.use_tls = *b,
    }
}

/// Load a configuration from its persisted fields; attributes without a
/// field keep their loading default.
pub fn load_fields(fields: &Vec<SettingField>) -> (r: SmtpSettings)
    ensures
        r@ == spec_load(fields_model(fields@)),
{
    let mut r = SmtpSettings {
        host: String::new(),
        port: default_smtp_port(),
        username: String::new(),
        password: String::new(),
        from: String::new(),
        to: String::new(),
        tls_mode: None,
        use_tls: false,
    };
    proof {
        assert(fields_model(fields@).take(0) =~= Seq::<FieldModel>::empty());
        assert(r@.host =~= spec_absent_defaults().host);
        assert(r@.username =~= spec_absent_defaults().username);
        assert(r@.password =~= spec_absent_defaults().password);
        assert(r@.from =~= spec_absent_defaults().from);
        assert(r@.to =~= spec_absent_defaults().to);
    }
    let mut i: usize = 0;
    while i < fields.len()
        invariant
            i <= fields@.len(),
            r@ == spec_load(fields_model(fields@).take(i as int)),
        decreases fields@.len() - i,
    {
        apply_field(&mut r, &fields[i]);
        proof {
            let fm = fields_model(fields@);
            assert(fm.take(i + 1).drop_last() =~= fm.take(i as int));
            assert(fm.take(i + 1).last() == fm[i as int]);
        }
        i = i + 1;
    }
    proof {
        assert(fields_model(fields@).take(fields@.len() as int) =~= fields_model(fields@));
    }
    r
}

/// Law: a configuration saved and then loaded comes back field for field —
/// in particular, one saved without an explicit TLS mode loads without one,
/// leaving the legacy flag to decide the mode in force.
pub proof fn lemma_settings_round_trip(m: SmtpModel)
    ensures
        spec_load(spec_save(m)) == m,
{
    reveal_with_fuel(spec_load, 9);
    let fs = spec_save(m);
    match m.tls_mode {
        Some(t) => {
            assert(fs =~= seq![
                FieldModel::Host(m.host),
                FieldModel::Port(m.port),
                FieldModel::Username(m.username),
                FieldModel::Password(m.password),
                FieldModel::From(m.from),
                FieldModel::To(m.to),
                FieldModel::Tls(t),
                FieldModel::UseTls(m.use_tls),
            ]);
            assert(fs.drop_last() =~= seq![
                FieldModel::Host(m.host),
                FieldModel::Port(m.port),
                FieldModel::Username(m.username),
                FieldModel::Password(m.password),
                FieldModel::From(m.from),
                FieldModel::To(m.to),
                FieldModel::Tls(t),
            ]);
            assert(fs.drop_last().drop_last() =~= seq![
                FieldModel::Host(m.host),
                FieldModel::Port(m.port),
                FieldModel::Username(m.username),
                FieldModel::Password(m.password),
                FieldModel::From(m.from),
                FieldModel::To(m.to),
            ]);
            lemma_load_prefix(m);
        },
        None => {
            assert(fs =~= seq![
                FieldModel::Host(m.host),
                FieldModel::Port(m.port),
                FieldModel::Username(m.username),
                FieldModel::Password(m.password),
                FieldModel::From(m.from),
                FieldModel::To(m.to),
                FieldModel::UseTls(m.use_tls),
            ]);
            lemma_load_prefix(m);
        },
    }
}

/// Loading the six always-saved attribute fields reconstructs those
/// attributes over the loading defaults.
proof fn lemma_load_prefix(m: SmtpModel)
    ensures
        spec_load(
            seq![
                FieldModel::Host(m.host),
                FieldModel::Port(m.port),
                FieldModel::Username(m.username),
                FieldModel::Password(m.password),
                FieldModel::From(m.from),
                FieldModel::To(m.to),
            ],
        ) == (SmtpModel { tls_mode: None, use_tls: false, ..m }),
{
    reveal_with_fuel(spec_load, 8);
    let fs = seq![
        FieldModel::Host(m.host),
        FieldModel::Port(m.port),
        FieldModel::Username(m.username),
        FieldModel::Password(m.password),
        FieldModel::From(m.from),
        FieldModel::To(m.to),
    ];
    assert(fs.drop_last() =~= seq![
        FieldModel::Host(m.host),
        FieldModel::Port(m.port),
        FieldModel::Username(m.username),
        FieldModel::Password(m.password),
        FieldModel::From(m.from),
    ]);
    assert(fs.drop_last().drop_last() =~= seq![
        FieldModel::Host(m.host),
        FieldModel::Port(m.port),
        FieldModel::Username(m.username),
        FieldModel::Password(m.password),
    ]);
    assert(fs.drop_last().drop_last().drop_last() =~= seq![
        FieldModel::Host(m.host),
        FieldModel::Port(m.port),
        FieldModel::Username(m.username),
    ]);
    assert(fs.drop_last().drop_last().drop_last().drop_last() =~= seq![
        FieldModel::Host(m.host),
        FieldModel::Port(m.port),
    ]);
    assert(fs.drop_last().drop_last().drop_last().drop_last().drop_last() =~= seq![
        FieldModel::Host(m.host),
    ]);
    assert(fs.drop_last().drop_last().drop_last().drop_last().drop_last().drop_last()
        =~= Seq::<FieldModel>::empty());
}

} // verus!
