use vstd::prelude::*;

verus! {

/// A backend driver descriptor: the backend that opens connections for one
/// connection scheme.
#[derive(Debug, Clone)]
pub struct AnyDriver {
    pub name: String,
    pub scheme: String,
}

/// The content of a driver descriptor.
pub struct DriverInfo {
    pub name: Seq<char>,
    pub scheme: Seq<char>,
}

impl View for AnyDriver {
    type V = DriverInfo;

    open spec fn view(&self) -> DriverInfo {
        DriverInfo { name: self.name@, scheme: self.scheme@ }
    }
}

impl AnyDriver {
    pub fn new(name: &str, scheme: &str) -> (r: AnyDriver)
        ensures
            r@ == (DriverInfo { name: name@, scheme: scheme@ }),
    {
        AnyDriver { name: name.to_owned(), scheme: scheme.to_owned() }
    }
}

/// The contents of a sequence of descriptors.
pub open spec fn driver_infos(ds: Seq<AnyDriver>) -> Seq<DriverInfo> {
    ds.map_values(|d: AnyDriver| d@)
}

/// A recoverable registry failure.
#[derive(Debug, Clone, Copy, PartialEq, Eq, Structural)]
pub enum RegistryError {
    /// The registry was queried before any install.
    NotInstalled,
    /// A second install was attempted; the registry keeps its first contents.
    AlreadyInstalled,
    /// No installed descriptor serves the scheme.
    UnsupportedScheme,
}

/// The first descriptor at or after index `i` of `ds` that serves `scheme`.
pub open spec fn find_from(ds: Seq<DriverInfo>, scheme: Seq<char>, i: int) -> Option<DriverInfo>
    decreases ds.len() - i,
{
    if i < 0 || i >= ds.len() {
        None
    } else if ds[i].scheme == scheme {
        Some(ds[i])
    } else {
        find_from(ds, scheme, i + 1)
    }
}

/// What a lookup of `scheme` yields in a registry with contents `reg`: `None`
/// before installation, else the installed descriptors in order.
pub open spec fn lookup(reg: Option<Seq<DriverInfo>>, scheme: Seq<char>) -> Result<
    DriverInfo,
    RegistryError,
> {
    match reg {
        None => Err(RegistryError::NotInstalled),
        Some(ds) => match find_from(ds, scheme, 0) {
            Some(d) => Ok(d),
            None => Err(RegistryError::UnsupportedScheme),
        },
    }
}

proof fn lemma_find_from_first(ds: Seq<DriverInfo>, scheme: Seq<char>, k: int, i: int)
    requires
        0 <= k <= i < ds.len(),
        ds[i].scheme == scheme,
        forall|j: int| k <= j < i ==> ds[j].scheme != scheme,
    ensures
        find_from(ds, scheme, k) == Some(ds[i]),
    decreases i - k,
{
    if k < i {
        lemma_find_from_first(ds, scheme, k + 1, i);
    }
}

proof fn lemma_find_from_none(ds: Seq<DriverInfo>, scheme: Seq<char>, k: int)
    requires
        0 <= k <= ds.len(),
        forall|j: int| k <= j < ds.len() ==> ds[j].scheme != scheme,
    ensures
        find_from(ds, scheme, k) is None,
    decreases ds.len() - k,
{
    if k < ds.len() {
        lemma_find_from_none(ds, scheme, k + 1);
    }
}

/// Resolving after an install of `ds`: a scheme that some installed descriptor
/// serves resolves to the first one that serves it, and the same lookup before
/// any install fails as not installed.
pub proof fn lemma_resolve_after_install(ds: Seq<DriverInfo>, i: int, scheme: Seq<char>)
    requires
        0 <= i < ds.len(),
        ds[i].scheme == scheme,
        forall|j: int| 0 <= j < i ==> ds[j].scheme != scheme,
    ensures
        lookup(Some(ds), scheme) == Ok::<DriverInfo, RegistryError>(ds[i]),
        lookup(None, scheme) == Err::<DriverInfo, RegistryError>(RegistryError::NotInstalled),
{
    lemma_find_from_first(ds, scheme, 0, i);
}

/// Resolving a scheme that no installed descriptor serves fails as unsupported.
pub proof fn lemma_resolve_unserved(ds: Seq<DriverInfo>, scheme: Seq<char>)
    requires
        forall|j: int| 0 <= j < ds.len() ==> ds[j].scheme != scheme,
    ensures
        lookup(Some(ds), scheme) == Err::<DriverInfo, RegistryError>(
            RegistryError::UnsupportedScheme,
        ),
{
    lemma_find_from_none(ds, scheme, 0);
}

/// The table from connection scheme to driver descriptor. It starts empty and
/// uninstalled, takes one install, and is read-only afterwards.
pub struct DriverRegistry {
    drivers: Option<Vec<AnyDriver>>,
}

impl View for DriverRegistry {
    type V = Option<Seq<DriverInfo>>;

    closed spec fn view(&self) -> Option<Seq<DriverInfo>> {
        match self.drivers {
            None => None,
            Some(ds) => Some(driver_infos(ds@)),
        }
    }
}

impl DriverRegistry {
    /// A registry that has not been installed.
    pub fn new() -> (r: DriverRegistry)
        ensures
            r@ is None,
    {
        DriverRegistry { drivers: None }
    }

    /// Whether the registry has been installed.
    pub fn is_installed(&self) -> (r: bool)
        ensures
            r == (self@ is Some),
    {
        self.drivers.is_some()
    }

    /// Installs `drivers` in the given order. Only the first install takes
    /// effect: a later one fails and leaves the registry as it was.
    pub fn install(&mut self, drivers: Vec<AnyDriver>) -> (r: Result<(), RegistryError>)
        ensures
            old(self)@ is None ==> r is Ok && final(self)@ == Some(
                driver_infos(drivers@),
            ),
            old(self)@ is Some ==> r == Err::<(), RegistryError>(RegistryError::AlreadyInstalled)
                && final(self)@ == old(self)@,
    {
        if self.drivers.is_some() {
            Err(RegistryError::AlreadyInstalled)
        } else {
            self.drivers = Some(drivers);
            Ok(())
        }
    }

    /// The first installed descriptor that serves `scheme`.
    pub fn resolve(&self, scheme: &str) -> (r: Result<&AnyDriver, RegistryError>)
        ensures
            r matches Ok(d) ==> lookup(self@, scheme@) == Ok::<DriverInfo, RegistryError>(d@),
            r matches Err(e) ==> lookup(self@, scheme@) == Err::<DriverInfo, RegistryError>(e),
    {
        match &self.drivers {
            None => Err(RegistryError::NotInstalled),
            Some(ds) => {
                let key = scheme.to_owned();
                let ghost infos = driver_infos(ds@);
                let mut i: usize = 0;
                while i < ds.len()
                    invariant
                        0 <= i <= ds@.len(),
                        infos == driver_infos(ds@),
                        self@ == Some(infos),
                        key@ == scheme@,
                        find_from(infos, scheme@, 0) == find_from(infos, scheme@, i as int),
                    decreases ds@.len() - i,
                {
                    if ds[i].scheme == key {
                        assert(infos[i as int] == ds@[i as int]@);
                        assert(find_from(infos, scheme@, i as int) == Some(infos[i as int]));
                        return Ok(&ds[i]);
                    }
                    i = i + 1;
                }
                Err(RegistryError::UnsupportedScheme)
            },
        }
    }
}

/// The descriptors of the backends built into the library: MySQL (also
/// serving MariaDB), PostgreSQL and SQLite, one per scheme.
pub open spec fn default_drivers() -> Seq<DriverInfo> {
    seq![
        DriverInfo { name: "MySQL"@, scheme: "mysql"@ },
        DriverInfo { name: "MySQL"@, scheme: "mariadb"@ },
        DriverInfo { name: "PostgreSQL"@, scheme: "postgres"@ },
        DriverInfo { name: "PostgreSQL"@, scheme: "postgresql"@ },
        DriverInfo { name: "SQLite"@, scheme: "sqlite"@ },
    ]
}

/// Installs the built-in backends' descriptors into `registry`.
pub fn install_default_drivers(registry: &mut DriverRegistry) -> (r: Result<(), RegistryError>)
    ensures
        old(registry)@ is None ==> r is Ok && final(registry)@ == Some(default_drivers()),
        old(registry)@ is Some ==> r == Err::<(), RegistryError>(RegistryError::AlreadyInstalled)
            && final(registry)@ == old(registry)@,
{
    let mut drivers: Vec<AnyDriver> = Vec::new();
    drivers.push(AnyDriver::new("MySQL", "mysql"));
    drivers.push(AnyDriver::new("MySQL", "mariadb"));
    drivers.push(AnyDriver::new("PostgreSQL", "postgres"));
    drivers.push(AnyDriver::new("PostgreSQL", "postgresql"));
    drivers.push(AnyDriver::new("SQLite", "sqlite"));
    let r = registry.install(drivers);
    assert(driver_infos(drivers@) =~= default_drivers());
    r
}

} // verus!
