use vstd::prelude::*;
use vstd::string::StringExecFns;

use crate::error::BuildError;

verus! {

// The tool reads two optional configuration blocks from the project
// description: a general block (display name) and a package block
// (identifier, version fields, icon, feature and permission lists).  A
// block reaches the resolver as the flat list of its fields, each field a
// key with a simply-typed value; the resolver checks the schema and
// overlays the given fields onto the defaults, field by field.

/// A configuration field's value, reduced to the shapes the schema knows:
/// a string, an unsigned integer, or a list of strings.  Anything else is
/// `Other` and rejected when a known key holds it.
#[derive(Debug)]
pub enum ConfigValue {
    Str(String),
    UInt(u64),
    List(Vec<String>),
    Other,
}

/// One field of a configuration block.
#[derive(Debug)]
pub struct ConfigField {
    pub key: String,
    pub value: ConfigValue,
}

/// Specification-level form of a configuration value.
pub enum ConfigValueV {
    Str(Seq<char>),
    UInt(u64),
    List(Seq<Seq<char>>),
    Other,
}

/// Specification-level form of a configuration field.
pub struct ConfigFieldV {
    pub key: Seq<char>,
    pub value: ConfigValueV,
}

impl View for ConfigValue {
    type V = ConfigValueV;

    open spec fn view(&self) -> ConfigValueV {
        match self {
            ConfigValue::Str(s) => ConfigValueV::Str(s@),
            ConfigValue::UInt(u) => ConfigValueV::UInt(*u),
            ConfigValue::List(l) => ConfigValueV::List(l.deep_view()),
            ConfigValue::Other => ConfigValueV::Other,
        }
    }
}

impl DeepView for ConfigValue {
    type V = ConfigValueV;

    open spec fn deep_view(&self) -> ConfigValueV {
        self.view()
    }
}

impl View for ConfigField {
    type V = ConfigFieldV;

    open spec fn view(&self) -> ConfigFieldV {
        ConfigFieldV { key: self.key@, value: self.value@ }
    }
}

impl DeepView for ConfigField {
    type V = ConfigFieldV;

    open spec fn deep_view(&self) -> ConfigFieldV {
        self.view()
    }
}

/// A schema violation found while resolving a block.
pub enum ConfigFault {
    /// The block holds a key the schema does not know.
    Unknown(Seq<char>),
    /// A known key holds a value of the wrong type or range.
    Invalid(Seq<char>),
}

/// The package configuration block, fully resolved: every absent field
/// holds its documented default.
#[derive(Debug)]
pub struct Metadata {
    /// Package identifier override.
    pub package: Option<String>,
    /// Version code override.
    pub version_code: Option<u32>,
    /// Version name override.
    pub version_name: Option<String>,
    /// Icon path, relative to the workspace root.
    pub icon: Option<String>,
    /// Required hardware features, in declaration order.
    pub uses_feature: Vec<String>,
    /// Required permissions, in declaration order.
    pub uses_permission: Vec<String>,
}

/// Specification-level form of `Metadata`.
pub struct MetadataV {
    pub package: Option<Seq<char>>,
    pub version_code: Option<u32>,
    pub version_name: Option<Seq<char>>,
    pub icon: Option<Seq<char>>,
    pub uses_feature: Seq<Seq<char>>,
    pub uses_permission: Seq<Seq<char>>,
}

impl View for Metadata {
    type V = MetadataV;

    open spec fn view(&self) -> MetadataV {
        MetadataV {
            package: match self.package {
                Some(ref s) => Some(s@),
                None => None,
            },
            version_code: self.version_code,
            version_name: match self.version_name {
                Some(ref s) => Some(s@),
                None => None,
            },
            icon: match self.icon {
                Some(ref s) => Some(s@),
                None => None,
            },
            uses_feature: self.uses_feature.deep_view(),
            uses_permission: self.uses_permission.deep_view(),
        }
    }
}

/// The all-default package metadata: no overrides, empty lists.
pub open spec fn spec_default_metadata() -> MetadataV {
    MetadataV {
        package: None,
        version_code: None,
        version_name: None,
        icon: None,
        uses_feature: Seq::empty(),
        uses_permission: Seq::empty(),
    }
}

/// Overlays one field onto `m`: a known key with a well-typed value
/// replaces that field alone; an unknown key or an ill-typed value is a
/// schema fault.
pub open spec fn spec_apply_field(m: MetadataV, f: ConfigFieldV) -> Result<MetadataV, ConfigFault> {
    if f.key == "package"@ {
        match f.value {
            ConfigValueV::Str(s) => Ok(MetadataV { package: Some(s), ..m }),
            _ => Err(ConfigFault::Invalid(f.key)),
        }
    } else if f.key == "version-code"@ {
        match f.value {
            ConfigValueV::UInt(u) => if u <= u32::MAX as u64 {
                Ok(MetadataV { version_code: Some(u as u32), ..m })
            } else {
                Err(ConfigFault::Invalid(f.key))
            },
            _ => Err(ConfigFault::Invalid(f.key)),
        }
    } else if f.key == "version-name"@ {
        match f.value {
            ConfigValueV::Str(s) => Ok(MetadataV { version_name: Some(s), ..m }),
            _ => Err(ConfigFault::Invalid(f.key)),
        }
    } else if f.key == "icon"@ {
        match f.value {
            ConfigValueV::Str(s) => Ok(MetadataV { icon: Some(s), ..m }),
            _ => Err(ConfigFault::Invalid(f.key)),
        }
    } else if f.key == "uses-feature"@ {
        match f.value {
            ConfigValueV::List(l) => Ok(MetadataV { uses_feature: l, ..m }),
            _ => Err(ConfigFault::Invalid(f.key)),
        }
    } else if f.key == "uses-permission"@ {
        match f.value {
            ConfigValueV::List(l) => Ok(MetadataV { uses_permission: l, ..m }),
            _ => Err(ConfigFault::Invalid(f.key)),
        }
    } else {
        Err(ConfigFault::Unknown(f.key))
    }
}

/// Resolves a package block: the defaults, overlaid with the block's
/// fields in order; the first schema fault wins.
pub open spec fn spec_resolve_metadata(fields: Seq<ConfigFieldV>) -> Result<
    MetadataV,
    ConfigFault,
>
    decreases fields.len(),
{
    if fields.len() == 0 {
        Ok(spec_default_metadata())
    } else {
        match spec_resolve_metadata(fields.drop_last()) {
            Ok(m) => spec_apply_field(m, fields.last()),
            Err(e) => Err(e),
        }
    }
}

/// The six schema keys are pairwise distinct (and distinct from the
/// general block's `name` key), which settles which branch of
/// `spec_apply_field` a given key takes.
proof fn lemma_keys_distinct()
    ensures
        "package"@ != "version-code"@ && "package"@ != "version-name"@ && "package"@ != "icon"@
            && "package"@ != "uses-feature"@ && "package"@ != "uses-permission"@,
        "version-code"@ != "version-name"@ && "version-code"@ != "icon"@ && "version-code"@
            != "uses-feature"@ && "version-code"@ != "uses-permission"@,
        "version-name"@ != "icon"@ && "version-name"@ != "uses-feature"@ && "version-name"@
            != "uses-permission"@,
        "icon"@ != "uses-feature"@ && "icon"@ != "uses-permission"@ && "icon"@ != "name"@,
        "uses-feature"@ != "uses-permission"@,
{
    broadcast use vstd::string::group_string_axioms;

    reveal_strlit("package");
    reveal_strlit("version-code");
    reveal_strlit("version-name");
    reveal_strlit("icon");
    reveal_strlit("uses-feature");
    reveal_strlit("uses-permission");
    reveal_strlit("name");
    assert("package"@.len() == 7);
    assert("version-code"@.len() == 12);
    assert("version-name"@.len() == 12);
    assert("icon"@.len() == 4);
    assert("uses-feature"@.len() == 12);
    assert("uses-permission"@.len() == 15);
    assert("name"@.len() == 4);
    assert("version-code"@[8] == 'c');
    assert("version-name"@[8] == 'n');
    assert("uses-feature"@[0] == 'u');
    assert("version-code"@[0] == 'v');
    assert("version-name"@[0] == 'v');
    assert("icon"@[0] == 'i');
    assert("name"@[0] == 'n');
}

/// A schema fault at position `i` is the fault of the whole block: every
/// later field is ignored once resolution has failed.
proof fn lemma_metadata_fault_propagates(fields: Seq<ConfigFieldV>, i: int, m: MetadataV, e: ConfigFault)
    requires
        0 <= i < fields.len(),
        spec_resolve_metadata(fields.take(i)) == Ok::<MetadataV, ConfigFault>(m),
        spec_apply_field(m, fields[i]) == Err::<MetadataV, ConfigFault>(e),
    ensures
        spec_resolve_metadata(fields) == Err::<MetadataV, ConfigFault>(e),
    decreases fields.len(),
{
    let prefix = fields.drop_last();
    if i == fields.len() - 1 {
        assert(fields.take(i) =~= prefix);
    } else {
        assert(prefix.take(i) =~= fields.take(i));
        lemma_metadata_fault_propagates(prefix, i, m, e);
    }
}

/// The counterpart of `lemma_metadata_fault_propagates` for the general
/// block.
proof fn lemma_ori_fault_propagates(fields: Seq<ConfigFieldV>, i: int, m: OriMetadataV, e: ConfigFault)
    requires
        0 <= i < fields.len(),
        spec_resolve_ori(fields.take(i)) == Ok::<OriMetadataV, ConfigFault>(m),
        spec_apply_ori_field(m, fields[i]) == Err::<OriMetadataV, ConfigFault>(e),
    ensures
        spec_resolve_ori(fields) == Err::<OriMetadataV, ConfigFault>(e),
    decreases fields.len(),
{
    let prefix = fields.drop_last();
    if i == fields.len() - 1 {
        assert(fields.take(i) =~= prefix);
    } else {
        assert(prefix.take(i) =~= fields.take(i));
        lemma_ori_fault_propagates(prefix, i, m, e);
    }
}

impl Metadata {
    /// The all-default package metadata.
    pub fn defaults() -> (r: Metadata)
        ensures
            r@ == spec_default_metadata(),
    {
        let r = Metadata {
            package: None,
            version_code: None,
            version_name: None,
            icon: None,
            uses_feature: Vec::new(),
            uses_permission: Vec::new(),
        };
        proof {
            assert(r@.uses_feature =~= Seq::<Seq<char>>::empty());
            assert(r@.uses_permission =~= Seq::<Seq<char>>::empty());
        }
        r
    }

    /// Overlays one field, as `spec_apply_field` describes.
    fn apply_field(m: Metadata, f: &ConfigField) -> (r: Result<Metadata, BuildError>)
        ensures
            match r {
                Ok(m2) => spec_apply_field(m@, f@) == Ok::<MetadataV, ConfigFault>(m2@),
                Err(e) => match spec_apply_field(m@, f@) {
                    Ok(_) => false,
                    Err(ConfigFault::Unknown(k)) => e matches BuildError::UnknownConfigField(v)
                        && v@ == k,
                    Err(ConfigFault::Invalid(k)) => e matches BuildError::InvalidConfigField(v)
                        && v@ == k,
                },
            },
    {
        let mut m = m;
        if f.key == String::from_str("package") {
            match &f.value {
                ConfigValue::Str(s) => {
                    m.package = Some(s.clone());
                    Ok(m)
                },
                _ => Err(BuildError::InvalidConfigField(f.key.clone())),
            }
        } else if f.key == String::from_str("version-code") {
            match &f.value {
                ConfigValue::UInt(u) => {
                    if *u <= u32::MAX as u64 {
                        m.version_code = Some(*u as u32);
                        Ok(m)
                    } else {
                        Err(BuildError::InvalidConfigField(f.key.clone()))
                    }
                },
                _ => Err(BuildError::InvalidConfigField(f.key.clone())),
            }
        } else if f.key == String::from_str("version-name") {
            match &f.value {
                ConfigValue::Str(s) => {
                    m.version_name = Some(s.clone());
                    Ok(m)
                },
                _ => Err(BuildError::InvalidConfigField(f.key.clone())),
            }
        } else if f.key == String::from_str("icon") {
            match &f.value {
                ConfigValue::Str(s) => {
                    m.icon = Some(s.clone());
                    Ok(m)
                },
                _ => Err(BuildError::InvalidConfigField(f.key.clone())),
            }
        } else if f.key == String::from_str("uses-feature") {
            match &f.value {
                ConfigValue::List(l) => {
                    m.uses_feature = l.clone();
                    Ok(m)
                },
                _ => Err(BuildError::InvalidConfigField(f.key.clone())),
            }
        } else if f.key == String::from_str("uses-permission") {
            match &f.value {
                ConfigValue::List(l) => {
                    m.uses_permission = l.clone();
                    Ok(m)
                },
                _ => Err(BuildError::InvalidConfigField(f.key.clone())),
            }
        } else {
            Err(BuildError::UnknownConfigField(f.key.clone()))
        }
    }

    /// Resolves the package configuration block.  An absent block yields
    /// the defaults; a present block overlays its fields onto the
    /// defaults, and an unknown key or ill-typed value is rejected with
    /// the key's name.
    pub fn resolve(block: Option<&Vec<ConfigField>>) -> (r: Result<Metadata, BuildError>)
        ensures
            match r {
                Ok(m) => spec_resolve_metadata(spec_block_fields(block)) == Ok::<
                    MetadataV,
                    ConfigFault,
                >(m@),
                Err(e) => match spec_resolve_metadata(spec_block_fields(block)) {
                    Ok(_) => false,
                    Err(ConfigFault::Unknown(k)) => e matches BuildError::UnknownConfigField(v)
                        && v@ == k,
                    Err(ConfigFault::Invalid(k)) => e matches BuildError::InvalidConfigField(v)
                        && v@ == k,
                },
            },
    {
        let mut m = Metadata::defaults();
        let fields: &Vec<ConfigField> = match block {
            Some(fields) => fields,
            None => {
                return Ok(m);
            },
        };
        let ghost fv = fields.deep_view();
        let n = fields.len();
        let mut i: usize = 0;
        while i < n
            invariant
                i <= n,
                n == fields@.len(),
                fv == fields.deep_view(),
                spec_block_fields(block) == fv,
                spec_resolve_metadata(fv.take(i as int)) == Ok::<MetadataV, ConfigFault>(m@),
            decreases n - i,
        {
            let f = &fields[i];
            let ghost mv = m@;
            match Self::apply_field(m, f) {
                Ok(next) => {
                    m = next;
                },
                Err(e) => {
                    proof {
                        assert(fv[i as int] == f@);
                        match spec_apply_field(mv, fv[i as int]) {
                            Err(fault) => lemma_metadata_fault_propagates(
                                fv,
                                i as int,
                                mv,
                                fault,
                            ),
                            Ok(_) => {},
                        }
                    }
                    return Err(e);
                },
            }
            proof {
                assert(fv.take(i + 1).drop_last() =~= fv.take(i as int));
                assert(fv.take(i + 1).last() == fv[i as int]);
            }
            i = i + 1;
        }
        proof {
            assert(fv.take(n as int) =~= fv);
        }
        Ok(m)
    }
}

/// The fields of an optional block: an absent block has none.
pub open spec fn spec_block_fields(block: Option<&Vec<ConfigField>>) -> Seq<ConfigFieldV> {
    match block {
        Some(fields) => fields.deep_view(),
        None => Seq::empty(),
    }
}

/// The general configuration block: only a display name.
#[derive(Debug)]
pub struct OriMetadata {
    /// Application display name.
    pub name: Option<String>,
}

/// Specification-level form of `OriMetadata`.
pub struct OriMetadataV {
    pub name: Option<Seq<char>>,
}

impl View for OriMetadata {
    type V = OriMetadataV;

    open spec fn view(&self) -> OriMetadataV {
        OriMetadataV {
            name: match self.name {
                Some(ref s) => Some(s@),
                None => None,
            },
        }
    }
}

/// Overlays one field onto the general block's values.
pub open spec fn spec_apply_ori_field(m: OriMetadataV, f: ConfigFieldV) -> Result<
    OriMetadataV,
    ConfigFault,
> {
    if f.key == "name"@ {
        match f.value {
            ConfigValueV::Str(s) => Ok(OriMetadataV { name: Some(s) }),
            _ => Err(ConfigFault::Invalid(f.key)),
        }
    } else {
        Err(ConfigFault::Unknown(f.key))
    }
}

/// Resolves the general configuration block, as `spec_resolve_metadata`
/// does for the package block.
pub open spec fn spec_resolve_ori(fields: Seq<ConfigFieldV>) -> Result<OriMetadataV, ConfigFault>
    decreases fields.len(),
{
    if fields.len() == 0 {
        Ok(OriMetadataV { name: None })
    } else {
        match spec_resolve_ori(fields.drop_last()) {
            Ok(m) => spec_apply_ori_field(m, fields.last()),
            Err(e) => Err(e),
        }
    }
}

impl OriMetadata {
    /// The all-default general metadata.
    pub fn defaults() -> (r: OriMetadata)
        ensures
            r@ == (OriMetadataV { name: None }),
    {
        OriMetadata { name: None }
    }

    /// Resolves the general configuration block; the schema knows only
    /// the `name` field.
    pub fn resolve(block: Option<&Vec<ConfigField>>) -> (r: Result<OriMetadata, BuildError>)
        ensures
            match r {
                Ok(m) => spec_resolve_ori(spec_block_fields(block)) == Ok::<
                    OriMetadataV,
                    ConfigFault,
                >(m@),
                Err(e) => match spec_resolve_ori(spec_block_fields(block)) {
                    Ok(_) => false,
                    Err(ConfigFault::Unknown(k)) => e matches BuildError::UnknownConfigField(v)
                        && v@ == k,
                    Err(ConfigFault::Invalid(k)) => e matches BuildError::InvalidConfigField(v)
                        && v@ == k,
                },
            },
    {
        let mut m = OriMetadata::defaults();
        let fields: &Vec<ConfigField> = match block {
            Some(fields) => fields,
            None => {
                return Ok(m);
            },
        };
        let ghost fv = fields.deep_view();
        let n = fields.len();
        let mut i: usize = 0;
        while i < n
            invariant
                i <= n,
                n == fields@.len(),
                fv == fields.deep_view(),
                spec_block_fields(block) == fv,
                spec_resolve_ori(fv.take(i as int)) == Ok::<OriMetadataV, ConfigFault>(m@),
            decreases n - i,
        {
            let f = &fields[i];
            let ghost mv = m@;
            if f.key == String::from_str("name") {
                match &f.value {
                    ConfigValue::Str(s) => {
                        m.name = Some(s.clone());
                    },
                    _ => {
                        proof {
                            assert(fv[i as int] == f@);
                            lemma_ori_fault_propagates(
                                fv,
                                i as int,
                                mv,
                                ConfigFault::Invalid(fv[i as int].key),
                            );
                        }
                        return Err(BuildError::InvalidConfigField(f.key.clone()));
                    },
                }
            } else {
                proof {
                    assert(fv[i as int] == f@);
                    lemma_ori_fault_propagates(
                        fv,
                        i as int,
                        mv,
                        ConfigFault::Unknown(fv[i as int].key),
                    );
                }
                return Err(BuildError::UnknownConfigField(f.key.clone()));
            }
            proof {
                assert(fv.take(i + 1).drop_last() =~= fv.take(i as int));
                assert(fv.take(i + 1).last() == fv[i as int]);
                assert(spec_apply_ori_field(mv, fv[i as int]) == Ok::<OriMetadataV, ConfigFault>(
                    m@,
                ));
            }
            i = i + 1;
        }
        proof {
            assert(fv.take(n as int) =~= fv);
        }
        Ok(m)
    }
}

/// Resolving an absent block yields exactly the defaults, every time: the
/// resolution of no fields is the default value, for both blocks.
pub proof fn lemma_absent_block_defaults()
    ensures
        spec_resolve_metadata(Seq::empty()) == Ok::<MetadataV, ConfigFault>(
            spec_default_metadata(),
        ),
        spec_resolve_ori(Seq::empty()) == Ok::<OriMetadataV, ConfigFault>(
            OriMetadataV { name: None },
        ),
{
}

/// Resolution overlays field by field and never clears a field it was not
/// given: a block that does not mention a key leaves that key's value at
/// its default.
pub proof fn lemma_overlay_preserves_defaults(fields: Seq<ConfigFieldV>, m: MetadataV)
    requires
        spec_resolve_metadata(fields) == Ok::<MetadataV, ConfigFault>(m),
    ensures
        (forall|i: int| 0 <= i < fields.len() ==> fields[i].key != "package"@) ==> m.package
            == spec_default_metadata().package,
        (forall|i: int| 0 <= i < fields.len() ==> fields[i].key != "version-code"@)
            ==> m.version_code == spec_default_metadata().version_code,
        (forall|i: int| 0 <= i < fields.len() ==> fields[i].key != "version-name"@)
            ==> m.version_name == spec_default_metadata().version_name,
        (forall|i: int| 0 <= i < fields.len() ==> fields[i].key != "icon"@) ==> m.icon
            == spec_default_metadata().icon,
        (forall|i: int| 0 <= i < fields.len() ==> fields[i].key != "uses-feature"@)
            ==> m.uses_feature == spec_default_metadata().uses_feature,
        (forall|i: int| 0 <= i < fields.len() ==> fields[i].key != "uses-permission"@)
            ==> m.uses_permission == spec_default_metadata().uses_permission,
    decreases fields.len(),
{
    if fields.len() > 0 {
        let prefix = fields.drop_last();
        match spec_resolve_metadata(prefix) {
            Ok(p) => {
                lemma_overlay_preserves_defaults(prefix, p);
                assert(forall|i: int| 0 <= i < prefix.len() ==> prefix[i] == fields[i]);
            },
            Err(_) => {},
        }
    }
}

/// The counterpart for a present field: the value a block gives for a key
/// is the value the resolution carries, the last occurrence winning.
pub proof fn lemma_overlay_takes_given_value(fields: Seq<ConfigFieldV>, m: MetadataV, i: int)
    requires
        spec_resolve_metadata(fields) == Ok::<MetadataV, ConfigFault>(m),
        0 <= i < fields.len(),
        forall|j: int| i < j < fields.len() ==> fields[j].key != fields[i].key,
    ensures
        fields[i].key == "package"@ ==> (fields[i].value matches ConfigValueV::Str(s)
            ==> m.package == Some(s)),
        fields[i].key == "version-code"@ ==> (fields[i].value matches ConfigValueV::UInt(u)
            ==> (u <= u32::MAX as u64 ==> m.version_code == Some(u as u32))),
        fields[i].key == "version-name"@ ==> (fields[i].value matches ConfigValueV::Str(s)
            ==> m.version_name == Some(s)),
        fields[i].key == "icon"@ ==> (fields[i].value matches ConfigValueV::Str(s)
            ==> m.icon == Some(s)),
        fields[i].key == "uses-feature"@ ==> (fields[i].value matches ConfigValueV::List(l)
            ==> m.uses_feature == l),
        fields[i].key == "uses-permission"@ ==> (fields[i].value matches ConfigValueV::List(l)
            ==> m.uses_permission == l),
    decreases fields.len(),
{
    lemma_keys_distinct();
    if fields.len() > 0 {
        let prefix = fields.drop_last();
        if i == fields.len() - 1 {
        } else {
            match spec_resolve_metadata(prefix) {
                Ok(p) => {
                    lemma_overlay_takes_given_value(prefix, p, i);
                    assert(fields.last().key != fields[i].key);
                },
                Err(_) => {},
            }
        }
    }
}

} // verus!
