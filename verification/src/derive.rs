//! The decisions behind the `Injectable` and `Initializable` derives, on plain values: which
//! attributes are accepted, where the value of a field comes from, and the names and messages
//! that the generated code uses.
use vstd::prelude::*;

verus! {

/// Where the value of a field of a derived injectable comes from.
#[derive(PartialEq, Eq, Structural, Clone, Copy, Debug)]
pub enum InjectableFieldSource {
    /// The field holds another injectable (the field carries a bare `#[inject]`).
    Injectable,
    /// The field is an initializable value.
    InitValue,
}

/// Either of two values.
pub enum Either<L, R> {
    /// The first kind of value.
    Left(L),
    /// The second kind of value.
    Right(R),
}

/// An attribute of a field, as far as the derive reads it.
#[derive(PartialEq, Eq, Structural, Clone, Copy, Debug)]
pub struct FieldAttr {
    /// The attribute's path is `inject`.
    pub is_inject: bool,
    /// The attribute is a bare path, without arguments or a value.
    pub is_bare: bool,
}

/// A misuse of the derive attributes.
#[derive(PartialEq, Eq, Structural, Clone, Copy, Debug)]
pub enum DeriveError {
    /// `#[inject]` on a field was given arguments or a value.
    UnexpectedInjectValue,
    /// `init(auto)` on an `Initializable`.
    AutoForInitializable,
    /// `init(manual)` on an `Injectable`.
    ManualForInjectable,
    /// `init(data(..))` on an `Initializable`.
    DataForInitializable,
    /// `init(auto)` on a struct with generics.
    AutoWithGenerics,
    /// The derive was applied to something other than a struct.
    NotAStruct,
}

impl DeriveError {
    /// The text of the message that the derive reports for this error.
    pub open spec fn message_text(self) -> Seq<char> {
        match self {
            DeriveError::UnexpectedInjectValue => "did not expect a value for `#[inject]`"@,
            DeriveError::AutoForInitializable => "`auto` is not supported for `Initializable`"@,
            DeriveError::ManualForInjectable => "`manual` is not supported for `Injectable`"@,
            DeriveError::DataForInitializable => "`data` is only supported for `#[derive(Injectable)]`"@,
            DeriveError::AutoWithGenerics => "cannot automatically initialize a struct with generics"@,
            DeriveError::NotAStruct => "must be a struct"@,
        }
    }

    /// The message that the derive reports for this error.
    pub fn message(&self) -> (r: &'static str)
        ensures
            r@ == self.message_text(),
    {
        match self {
            DeriveError::UnexpectedInjectValue => "did not expect a value for `#[inject]`",
            DeriveError::AutoForInitializable => "`auto` is not supported for `Initializable`",
            DeriveError::ManualForInjectable => "`manual` is not supported for `Injectable`",
            DeriveError::DataForInitializable => "`data` is only supported for `#[derive(Injectable)]`",
            DeriveError::AutoWithGenerics => "cannot automatically initialize a struct with generics",
            DeriveError::NotAStruct => "must be a struct",
        }
    }
}

/// Some `inject` attribute among `attrs` is not a bare path.
pub open spec fn has_inject_with_value(attrs: Seq<FieldAttr>) -> bool {
    exists|i: int| 0 <= i < attrs.len() && #[trigger] attrs[i].is_inject && !attrs[i].is_bare
}

/// Some attribute among `attrs` is `inject`.
pub open spec fn has_inject(attrs: Seq<FieldAttr>) -> bool {
    exists|i: int| 0 <= i < attrs.len() && #[trigger] attrs[i].is_inject
}

/// Decides where the value of a field comes from, given its attributes: a field with a bare
/// `#[inject]` holds an injectable, any other field an initializable value. An `inject`
/// attribute with arguments or a value is an error.
pub fn field_source(attrs: &[FieldAttr]) -> (r: Result<InjectableFieldSource, DeriveError>)
    ensures
        r == (if has_inject_with_value(attrs@) {
            Err(DeriveError::UnexpectedInjectValue)
        } else if has_inject(attrs@) {
            Ok(InjectableFieldSource::Injectable)
        } else {
            Ok(InjectableFieldSource::InitValue)
        }),
{
    let mut inject = false;
    let mut i: usize = 0;
    while i < attrs.len()
        invariant
            i <= attrs@.len(),
            inject == has_inject(attrs@.subrange(0, i as int)),
            !has_inject_with_value(attrs@.subrange(0, i as int)),
        decreases attrs@.len() - i,
    {
        let attr = attrs[i];
        proof {
            let next = attrs@.subrange(0, i + 1);
            assert(next[i as int] == attr);
            assert forall|j: int| 0 <= j < i implies next[j] == attrs@.subrange(0, i as int)[j] by {}
        }
        if attr.is_inject {
            if !attr.is_bare {
                proof {
                    assert(attrs@[i as int] == attr);
                }
                return Err(DeriveError::UnexpectedInjectValue);
            }
            inject = true;
        }
        i = i + 1;
        proof {
            let prev = attrs@.subrange(0, i - 1);
            let next = attrs@.subrange(0, i as int);
            if has_inject(prev) {
                let j = choose|j: int| 0 <= j < prev.len() && #[trigger] prev[j].is_inject;
                assert(next[j] == prev[j]);
            }
            if has_inject(next) && !attr.is_inject {
                let j = choose|j: int| 0 <= j < next.len() && #[trigger] next[j].is_inject;
                assert(j < i - 1);
                assert(prev[j] == next[j]);
            }
            if has_inject_with_value(next) {
                let j = choose|j: int| 0 <= j < next.len() && #[trigger] next[j].is_inject && !next[j].is_bare;
                if j < i - 1 {
                    assert(prev[j] == next[j]);
                }
            }
        }
    }
    proof {
        assert(attrs@.subrange(0, attrs@.len() as int) =~= attrs@);
    }
    if inject {
        Ok(InjectableFieldSource::Injectable)
    } else {
        Ok(InjectableFieldSource::InitValue)
    }
}

/// Checks the struct-level arguments of `#[derive(Initializable)]`: `init(auto)` is not
/// supported there.
pub fn check_for_initializable(auto: bool) -> (r: Result<(), DeriveError>)
    ensures
        r == (if auto {
            Err(DeriveError::AutoForInitializable)
        } else {
            Ok(())
        }),
{
    if auto {
        return Err(DeriveError::AutoForInitializable);
    }
    Ok(())
}

/// Checks the struct-level arguments of `#[derive(Injectable)]`: `init(manual)` is not
/// supported there.
pub fn check_for_injectable(manual: bool) -> (r: Result<(), DeriveError>)
    ensures
        r == (if manual {
            Err(DeriveError::ManualForInjectable)
        } else {
            Ok(())
        }),
{
    if manual {
        return Err(DeriveError::ManualForInjectable);
    }
    Ok(())
}

/// Checks the `init(data(..))` argument of `#[derive(Initializable)]`, which only
/// `#[derive(Injectable)]` supports.
pub fn check_initializable_data(data: bool) -> (r: Result<(), DeriveError>)
    ensures
        r == (if data {
            Err(DeriveError::DataForInitializable)
        } else {
            Ok(())
        }),
{
    if data {
        return Err(DeriveError::DataForInitializable);
    }
    Ok(())
}

/// Checks `init(auto)` of `#[derive(Injectable)]`: a struct with generics cannot be initialized
/// automatically. Returns whether the struct is initialized automatically.
pub fn check_auto(auto: bool, has_generics: bool) -> (r: Result<bool, DeriveError>)
    ensures
        r == (if auto && has_generics {
            Err(DeriveError::AutoWithGenerics)
        } else {
            Ok(auto)
        }),
{
    if auto && has_generics {
        return Err(DeriveError::AutoWithGenerics);
    }
    Ok(auto)
}

/// Whether the struct holding the initialization data of an injectable is hidden from the
/// documentation: as `init(data(hide = ..))` says, and hidden when it says nothing.
pub fn init_data_hidden(hide: Option<bool>) -> (r: bool)
    ensures
        r == match hide {
            Some(h) => h,
            None => true,
        },
{
    match hide {
        Some(h) => h,
        None => true,
    }
}

/// Whether an injectable is initialized automatically when its derive does not say: it is not.
pub open spec fn auto_by_default() -> bool {
    false
}

/// Whether an injectable is initialized automatically when its derive does not say.
pub fn default_auto() -> (r: bool)
    ensures
        r == auto_by_default(),
{
    false
}

/// Whether an injectable is initialized automatically: as `init(auto)` or `init(auto = ..)`
/// says (a bare `auto` asks for it), and by default when the derive says nothing.
pub fn auto_init(requested: Option<bool>) -> (r: bool)
    ensures
        r == match requested {
            Some(auto) => auto,
            None => auto_by_default(),
        },
{
    match requested {
        Some(auto) => auto,
        None => default_auto(),
    }
}

/// The character of the decimal digit `d`.
pub open spec fn digit_char(d: nat) -> char {
    (48 + d) as char
}

/// The decimal representation of `n`, without leading zeros.
pub open spec fn decimal(n: nat) -> Seq<char>
    decreases n,
{
    if n < 10 {
        seq![digit_char(n)]
    } else {
        decimal(n / 10).push(digit_char(n % 10))
    }
}

/// The one-character string of the decimal digit `d`.
fn digit_str(d: usize) -> (r: &'static str)
    requires
        d < 10,
    ensures
        r@ == seq![digit_char(d as nat)],
{
    proof {
        reveal_strlit("0");
        reveal_strlit("1");
        reveal_strlit("2");
        reveal_strlit("3");
        reveal_strlit("4");
        reveal_strlit("5");
        reveal_strlit("6");
        reveal_strlit("7");
        reveal_strlit("8");
        reveal_strlit("9");
    }
    match d {
        0 => "0",
        1 => "1",
        2 => "2",
        3 => "3",
        4 => "4",
        5 => "5",
        6 => "6",
        7 => "7",
        8 => "8",
        _ => "9",
    }
}

/// Appends the decimal representation of `n` to `s`.
fn push_decimal(s: &mut String, n: usize)
    ensures
        final(s)@ == old(s)@ + decimal(n as nat),
    decreases n,
{
    if n >= 10 {
        push_decimal(s, n / 10);
    }
    s.append(digit_str(n % 10));
    proof {
        if n < 10 {
            assert(decimal(n as nat) == seq![digit_char(n as nat)]);
        } else {
            assert(decimal(n as nat) == decimal((n / 10) as nat).push(digit_char((n % 10) as nat)));
        }
    }
}

/// The name of a field as the messages of the derive show it: the field's identifier, or `.`
/// followed by its index for a field of a tuple struct.
pub open spec fn field_name_spec(ident: Option<Seq<char>>, index: nat) -> Seq<char> {
    match ident {
        Some(name) => name,
        None => seq!['.'] + decimal(index),
    }
}

/// The expression that accesses a field: its identifier, or its index for a field of a tuple
/// struct.
pub open spec fn accessor_spec(ident: Option<Seq<char>>, index: nat) -> Seq<char> {
    match ident {
        Some(name) => name,
        None => decimal(index),
    }
}

/// Returns the name of a field as the messages of the derive show it.
pub fn field_name(ident: Option<&str>, index: usize) -> (r: String)
    ensures
        r@ == field_name_spec(
            match ident {
                Some(i) => Some(i@),
                None => None,
            },
            index as nat,
        ),
{
    match ident {
        Some(name) => name.to_owned(),
        None => {
            proof {
                reveal_strlit(".");
            }
            let mut s = ".".to_owned();
            push_decimal(&mut s, index);
            s
        },
    }
}

/// Returns the expression that accesses a field.
pub fn accessor(ident: Option<&str>, index: usize) -> (r: String)
    ensures
        r@ == accessor_spec(
            match ident {
                Some(i) => Some(i@),
                None => None,
            },
            index as nat,
        ),
{
    match ident {
        Some(name) => name.to_owned(),
        None => {
            let mut s = String::new();
            push_decimal(&mut s, index);
            s
        },
    }
}

/// Returns `ident` followed by `suffix`.
fn suffixed(ident: &str, suffix: &str) -> (r: String)
    ensures
        r@ == ident@ + suffix@,
{
    let mut s = ident.to_owned();
    s.append(suffix);
    s
}

/// Returns the name of the struct holding the initialization state of the derived type.
pub fn init_struct_name(ident: &str) -> (r: String)
    ensures
        r@ == ident@ + "Init"@,
{
    suffixed(ident, "Init")
}

/// Returns the name of the struct that holds the initialization data of the derived type:
/// `InitData` follows the type's name for an injectable, `Init` for an initializable.
pub fn init_data_struct_name(ident: &str, injectable: bool) -> (r: String)
    ensures
        r@ == ident@ + (if injectable {
            "InitData"@
        } else {
            "Init"@
        }),
{
    if injectable {
        suffixed(ident, "InitData")
    } else {
        suffixed(ident, "Init")
    }
}

/// Returns the name of the struct holding the runtime state of the derived type.
pub fn runtime_struct_name(ident: &str) -> (r: String)
    ensures
        r@ == ident@ + "Runtime"@,
{
    suffixed(ident, "Runtime")
}

/// Returns `prefix`, the field name in backquotes, ` of `, and the type name in backquotes.
fn field_message(prefix: &str, field: &str, ty: &str) -> (r: String)
    ensures
        r@ == prefix@ + "`"@ + field@ + "` of `"@ + ty@ + "`"@,
{
    let mut s = prefix.to_owned();
    s.append("`");
    s.append(field);
    s.append("` of `");
    s.append(ty);
    s.append("`");
    s
}

/// The context added to an error while creating the initialization state of a field.
pub fn init_error_message(field: &str, ty: &str) -> (r: String)
    ensures
        r@ == "could not create initialization state for field "@ + "`"@ + field@ + "` of `"@ + ty@
            + "`"@,
{
    field_message("could not create initialization state for field ", field, ty)
}

/// The context added to an error while building a field.
pub fn build_error_message(field: &str, ty: &str) -> (r: String)
    ensures
        r@ == "could not build field "@ + "`"@ + field@ + "` of `"@ + ty@ + "`"@,
{
    field_message("could not build field ", field, ty)
}

/// The context added to an error while creating the runtime state of a field.
pub fn runtime_error_message(field: &str, ty: &str) -> (r: String)
    ensures
        r@ == "could not create runtime state for field "@ + "`"@ + field@ + "` of `"@ + ty@
            + "`"@,
{
    field_message("could not create runtime state for field ", field, ty)
}

/// The context added to an error while injecting a field.
pub fn inject_error_message(field: &str, ty: &str) -> (r: String)
    ensures
        r@ == "could not inject field "@ + "`"@ + field@ + "` of `"@ + ty@ + "`"@,
{
    field_message("could not inject field ", field, ty)
}

} // verus!
