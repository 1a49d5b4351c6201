//! The variables of the installer: the include file that hands them to the
//! installer's sources, and the name of the installer.

use vstd::prelude::*;

verus! {

/// One variable of the installer.
#[derive(Debug, Clone)]
pub struct Directive {
    pub key: String,
    pub value: String,
}

impl View for Directive {
    type V = (Seq<char>, Seq<char>);

    open spec fn view(&self) -> (Seq<char>, Seq<char>) {
        (self.key@, self.value@)
    }
}

/// What the installer is built from.
#[derive(Debug, Clone)]
pub struct Package {
    pub app_name: String,
    pub manufacturer: String,
    pub version: String,
    pub description: String,
    pub exe_file: String,
    pub license_file: String,
    pub config_file: String,
}

/// The text of the name-based (SHA-1) UUID of `name` in the X.500
/// namespace, in lower-case hexadecimal digits with hyphens.
pub uninterp spec fn uuid_v5_x500(name: Seq<char>) -> Seq<char>;

/// Calls `uuid::Uuid::new_v5` with `Uuid::NAMESPACE_X500` and the UTF-8
/// bytes of `name`, and formats the result with its `Display`.  The
/// contract gives the text a name and claims only that it depends on `name`
/// alone.
#[verifier::external_body]
fn name_uuid(name: &str) -> (r: String)
    ensures
        r@ == uuid_v5_x500(name@),
{
    uuid::Uuid::new_v5(&uuid::Uuid::NAMESPACE_X500, name.as_bytes()).to_string()
}

/// The line that defines one variable.
pub open spec fn define_text(directive: (Seq<char>, Seq<char>)) -> Seq<char> {
    "<?define "@ + directive.0 + "=\""@ + directive.1 + "\" ?>\n"@
}

/// The lines that define the variables, in order.
pub open spec fn defines_text(directives: Seq<(Seq<char>, Seq<char>)>) -> Seq<char>
    decreases directives.len(),
{
    if directives.len() == 0 {
        Seq::empty()
    } else {
        defines_text(directives.drop_last()) + define_text(directives.last())
    }
}

/// The include file for the variables: the opening tag, a line break, one
/// line per variable, the closing tag.
pub open spec fn include_text(directives: Seq<(Seq<char>, Seq<char>)>) -> Seq<char> {
    "<Include xmlns=\"http://wixtoolset.org/schemas/v4/wxs\">"@ + "\n"@ + defines_text(directives)
        + "</Include>"@
}

/// The file name of the installer for a version of the application.
pub open spec fn installer_name_text(app_name: Seq<char>, version: Seq<char>) -> Seq<char> {
    app_name + "-Setup-"@ + version + ".msi"@
}

/// Keys and values of a list of variables.
pub open spec fn texts(directives: Seq<Directive>) -> Seq<(Seq<char>, Seq<char>)> {
    directives.map_values(|d: Directive| d@)
}

/// The file name of the installer: the application's name, `-Setup-`, the
/// version, `.msi`.
pub fn installer_name(app_name: &str, version: &str) -> (r: String)
    ensures
        r@ == installer_name_text(app_name@, version@),
{
    let mut name = app_name.to_string();
    name.append("-Setup-");
    name.append(version);
    name.append(".msi");
    name
}

/// The include file that defines `directives`, in their order.
pub fn variable_include(directives: &Vec<Directive>) -> (r: String)
    ensures
        r@ == include_text(texts(directives@)),
{
    let mut lines = String::new();
    let mut i: usize = 0;
    proof {
        assert(texts(directives@).take(0) =~= Seq::empty());
        assert(lines@ =~= defines_text(texts(directives@).take(0)));
    }
    while i < directives.len()
        invariant
            i <= directives.len(),
            lines@ == defines_text(texts(directives@).take(i as int)),
        decreases directives.len() - i,
    {
        let ghost before = lines@;
        lines.append("<?define ");
        lines.append(directives[i].key.as_str());
        lines.append("=\"");
        lines.append(directives[i].value.as_str());
        lines.append("\" ?>\n");
        proof {
            let all = texts(directives@);
            let next = all.take(i + 1);
            assert(next.drop_last() =~= all.take(i as int));
            assert(next.last() == directives@[i as int]@);
            assert(lines@ =~= before + define_text(directives@[i as int]@));
        }
        i = i + 1;
    }
    proof {
        assert(texts(directives@).take(i as int) =~= texts(directives@));
    }
    let mut content = "<Include xmlns=\"http://wixtoolset.org/schemas/v4/wxs\">".to_string();
    content.append("\n");
    content.append(lines.as_str());
    content.append("</Include>");
    content
}

fn directive(key: &str, value: &String) -> (r: Directive)
    ensures
        r@ == (key@, value@),
{
    Directive { key: key.to_string(), value: value.clone() }
}

impl Package {
    /// Keys and values of the installer's variables, in the order in which
    /// they are defined, for the upgrade code `upgrade_code`.
    pub open spec fn directive_texts(&self, upgrade_code: Seq<char>) -> Seq<
        (Seq<char>, Seq<char>),
    > {
        seq![
            ("AppName"@, self.app_name@),
            ("Manufacturer"@, self.manufacturer@),
            ("Version"@, self.version@),
            ("UpgradeCode"@, upgrade_code),
            ("AppDes"@, self.description@),
            ("AppExe"@, self.exe_file@),
            ("LicenseFile"@, self.license_file@),
            ("ConfigFile"@, self.config_file@),
        ]
    }

    /// The installer's variables for the upgrade code `upgrade_code`.
    pub fn directives(&self, upgrade_code: &String) -> (r: Vec<Directive>)
        ensures
            texts(r@) == self.directive_texts(upgrade_code@),
    {
        let mut list: Vec<Directive> = Vec::new();
        list.push(directive("AppName", &self.app_name));
        list.push(directive("Manufacturer", &self.manufacturer));
        list.push(directive("Version", &self.version));
        list.push(directive("UpgradeCode", upgrade_code));
        list.push(directive("AppDes", &self.description));
        list.push(directive("AppExe", &self.exe_file));
        list.push(directive("LicenseFile", &self.license_file));
        list.push(directive("ConfigFile", &self.config_file));
        assert(texts(list@) =~= self.directive_texts(upgrade_code@));
        list
    }

    /// The include file of the installer's variables for the upgrade code
    /// `upgrade_code`.
    pub fn variables_with(&self, upgrade_code: &String) -> (r: String)
        ensures
            r@ == include_text(self.directive_texts(upgrade_code@)),
    {
        let list = self.directives(upgrade_code);
        variable_include(&list)
    }

    /// The upgrade code of the package: the name-based UUID of its version.
    pub fn upgrade_code(&self) -> (r: String)
        ensures
            r@ == uuid_v5_x500(self.version@),
    {
        name_uuid(self.version.as_str())
    }

    /// The include file of the installer's variables.  The upgrade code is
    /// the name-based UUID of the version, so that every version has its
    /// own.
    pub fn generate_variable_wxi(&self) -> (r: String)
        ensures
            r@ == include_text(self.directive_texts(uuid_v5_x500(self.version@))),
    {
        let code = self.upgrade_code();
        self.variables_with(&code)
    }

    /// The file name of the installer.
    pub fn installer_name(&self) -> (r: String)
        ensures
            r@ == installer_name_text(self.app_name@, self.version@),
    {
        installer_name(self.app_name.as_str(), self.version.as_str())
    }
}

} // verus!
