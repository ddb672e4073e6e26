use vstd::prelude::*;

use crate::dispositivos::{aplicar, valor_pedido, Dispositivo, UpdateData};

verus! {

/// A partial update of the device locks: `Some(true)` locks a device,
/// `Some(false)` unlocks it, `None` leaves it as it is.
#[derive(Clone, Copy, Debug, PartialEq, Eq, Structural)]
pub struct UpdateLockData {
    pub lock_luz: Option<bool>,
    pub lock_tranca: Option<bool>,
    pub lock_alarme: Option<bool>,
    pub lock_janelas: Option<bool>,
    pub lock_robo: Option<bool>,
    pub lock_cafeteira: Option<bool>,
    pub lock_ar_condicionado: Option<bool>,
    pub lock_aquecedor: Option<bool>,
    pub lock_caixa_de_som: Option<bool>,
    pub lock_televisao: Option<bool>,
}

impl UpdateLockData {
    /// What the update asks of the lock of device `d`.
    pub open spec fn pedido(self, d: Dispositivo) -> Option<bool> {
        match d {
            Dispositivo::Luz => self.lock_luz,
            Dispositivo::Tranca => self.lock_tranca,
            Dispositivo::Alarme => self.lock_alarme,
            Dispositivo::Janelas => self.lock_janelas,
            Dispositivo::Robo => self.lock_robo,
            Dispositivo::Cafeteira => self.lock_cafeteira,
            Dispositivo::ArCondicionado => self.lock_ar_condicionado,
            Dispositivo::Aquecedor => self.lock_aquecedor,
            Dispositivo::CaixaDeSom => self.lock_caixa_de_som,
            Dispositivo::Televisao => self.lock_televisao,
        }
    }
}

/// Which devices are locked against updates (`true`: locked).
#[derive(Clone, Copy, Debug, PartialEq, Eq, Structural)]
pub struct LockDevice {
    pub lock_luz: bool,
    pub lock_tranca: bool,
    pub lock_alarme: bool,
    pub lock_janelas: bool,
    pub lock_robo: bool,
    pub lock_cafeteira: bool,
    pub lock_ar_condicionado: bool,
    pub lock_aquecedor: bool,
    pub lock_caixa_de_som: bool,
    pub lock_televisao: bool,
}

impl LockDevice {
    /// Whether device `d` is locked.
    pub open spec fn travado(self, d: Dispositivo) -> bool {
        match d {
            Dispositivo::Luz => self.lock_luz,
            Dispositivo::Tranca => self.lock_tranca,
            Dispositivo::Alarme => self.lock_alarme,
            Dispositivo::Janelas => self.lock_janelas,
            Dispositivo::Robo => self.lock_robo,
            Dispositivo::Cafeteira => self.lock_cafeteira,
            Dispositivo::ArCondicionado => self.lock_ar_condicionado,
            Dispositivo::Aquecedor => self.lock_aquecedor,
            Dispositivo::CaixaDeSom => self.lock_caixa_de_som,
            Dispositivo::Televisao => self.lock_televisao,
        }
    }

    /// Nothing is locked.
    pub open spec fn inicial() -> Self {
        LockDevice {
            lock_luz: false,
            lock_tranca: false,
            lock_alarme: false,
            lock_janelas: false,
            lock_robo: false,
            lock_cafeteira: false,
            lock_ar_condicionado: false,
            lock_aquecedor: false,
            lock_caixa_de_som: false,
            lock_televisao: false,
        }
    }

    /// The locks after `u` is applied.
    pub open spec fn atualizado(self, u: UpdateLockData) -> Self {
        LockDevice {
            lock_luz: aplicar(u.lock_luz, self.lock_luz),
            lock_tranca: aplicar(u.lock_tranca, self.lock_tranca),
            lock_alarme: aplicar(u.lock_alarme, self.lock_alarme),
            lock_janelas: aplicar(u.lock_janelas, self.lock_janelas),
            lock_robo: aplicar(u.lock_robo, self.lock_robo),
            lock_cafeteira: aplicar(u.lock_cafeteira, self.lock_cafeteira),
            lock_ar_condicionado: aplicar(u.lock_ar_condicionado, self.lock_ar_condicionado),
            lock_aquecedor: aplicar(u.lock_aquecedor, self.lock_aquecedor),
            lock_caixa_de_som: aplicar(u.lock_caixa_de_som, self.lock_caixa_de_som),
            lock_televisao: aplicar(u.lock_televisao, self.lock_televisao),
        }
    }

    /// The report of the locks, each device name with its lock.
    pub open spec fn relatorio(self) -> Seq<(Seq<char>, bool)> {
        seq![
            ("luz"@, self.lock_luz),
            ("tranca"@, self.lock_tranca),
            ("alarme"@, self.lock_alarme),
            ("janelas"@, self.lock_janelas),
            ("robo"@, self.lock_robo),
            ("cafeteira"@, self.lock_cafeteira),
            ("ar_condicionado"@, self.lock_ar_condicionado),
            ("aquecedor"@, self.lock_aquecedor),
            ("caixa_de_som"@, self.lock_caixa_de_som),
            ("televisao"@, self.lock_televisao),
        ]
    }

    /// Whether some device that `u` names is locked.
    pub open spec fn algum_travado(self, u: UpdateData) -> bool {
        (u.luz is Some && self.lock_luz)
        || (u.tranca is Some && self.lock_tranca)
        || (u.alarme is Some && self.lock_alarme)
        || (u.janelas is Some && self.lock_janelas)
        || (u.robo is Some && self.lock_robo)
        || (u.cafeteira is Some && self.lock_cafeteira)
        || (u.ar_condicionado is Some && self.lock_ar_condicionado)
        || (u.aquecedor is Some && self.lock_aquecedor)
        || (u.caixa_de_som is Some && self.lock_caixa_de_som)
        || (u.televisao is Some && self.lock_televisao)
    }

    /// What the lock check answers for an update: whether a device it names
    /// is locked, or an error when it names none.
    pub open spec fn consulta(self, u: UpdateData) -> Result<bool, Seq<char>> {
        match u.primeiro_pedido() {
            Some(_) => Ok(self.algum_travado(u)),
            None => Err("Item não fornecido"@),
        }
    }

    /// Every device starts unlocked.
    pub fn new() -> (s: Self)
        ensures
            s == Self::inicial(),
    {
        Self {
            lock_luz: false,
            lock_tranca: false,
            lock_alarme: false,
            lock_janelas: false,
            lock_robo: false,
            lock_cafeteira: false,
            lock_ar_condicionado: false,
            lock_aquecedor: false,
            lock_caixa_de_som: false,
            lock_televisao: false,
        }
    }

    /// Sets each lock for which the update carries a value.
    pub fn update(&mut self, updates: UpdateLockData)
        ensures
            *final(self) == old(self).atualizado(updates),
    {
        self.lock_luz = valor_pedido(updates.lock_luz, self.lock_luz);
        self.lock_tranca = valor_pedido(updates.lock_tranca, self.lock_tranca);
        self.lock_alarme = valor_pedido(updates.lock_alarme, self.lock_alarme);
        self.lock_janelas = valor_pedido(updates.lock_janelas, self.lock_janelas);
        self.lock_robo = valor_pedido(updates.lock_robo, self.lock_robo);
        self.lock_cafeteira = valor_pedido(updates.lock_cafeteira, self.lock_cafeteira);
        self.lock_ar_condicionado = valor_pedido(updates.lock_ar_condicionado, self.lock_ar_condicionado);
        self.lock_aquecedor = valor_pedido(updates.lock_aquecedor, self.lock_aquecedor);
        self.lock_caixa_de_som = valor_pedido(updates.lock_caixa_de_som, self.lock_caixa_de_som);
        self.lock_televisao = valor_pedido(updates.lock_televisao, self.lock_televisao);
    }

    /// Whether a device named by the update is locked (a locked device
    /// cannot be updated); an error when the update names no device.
    pub fn device_is_locked(&self, device_to_update: UpdateData) -> (r: Result<bool, String>)
        ensures
            match r {
                Ok(b) => self.consulta(device_to_update) == Ok::<bool, Seq<char>>(b),
                Err(e) => self.consulta(device_to_update) == Err::<bool, Seq<char>>(e@),
            },
    {
        let nomeia = !device_to_update.luz.is_none()
            || !device_to_update.tranca.is_none()
            || !device_to_update.alarme.is_none()
            || !device_to_update.janelas.is_none()
            || !device_to_update.robo.is_none()
            || !device_to_update.cafeteira.is_none()
            || !device_to_update.ar_condicionado.is_none()
            || !device_to_update.aquecedor.is_none()
            || !device_to_update.caixa_de_som.is_none()
            || !device_to_update.televisao.is_none();
        if !nomeia {
            return Err("Item não fornecido".to_string());
        }
        let travado = (!device_to_update.luz.is_none() && self.lock_luz)
            || (!device_to_update.tranca.is_none() && self.lock_tranca)
            || (!device_to_update.alarme.is_none() && self.lock_alarme)
            || (!device_to_update.janelas.is_none() && self.lock_janelas)
            || (!device_to_update.robo.is_none() && self.lock_robo)
            || (!device_to_update.cafeteira.is_none() && self.lock_cafeteira)
            || (!device_to_update.ar_condicionado.is_none() && self.lock_ar_condicionado)
            || (!device_to_update.aquecedor.is_none() && self.lock_aquecedor)
            || (!device_to_update.caixa_de_som.is_none() && self.lock_caixa_de_som)
            || (!device_to_update.televisao.is_none() && self.lock_televisao);
        Ok(travado)
    }

    /// Reports every device by name with its lock, as a list of
    /// (name, lock) pairs whose names are all different (see
    /// `lei_nomes_distintos`); vstd's `HashMap` contracts promise nothing for
    /// `String` keys, so a map would leave the report unstated.
    pub fn return_data(&self) -> (data: Vec<(String, bool)>)
        ensures
            crate::dispositivos::vista_relatorio(data@) == self.relatorio(),
    {
        let mut data: Vec<(String, bool)> = Vec::new();
        data.push(("luz".to_string(), self.lock_luz));
        data.push(("tranca".to_string(), self.lock_tranca));
        data.push(("alarme".to_string(), self.lock_alarme));
        data.push(("janelas".to_string(), self.lock_janelas));
        data.push(("robo".to_string(), self.lock_robo));
        data.push(("cafeteira".to_string(), self.lock_cafeteira));
        data.push(("ar_condicionado".to_string(), self.lock_ar_condicionado));
        data.push(("aquecedor".to_string(), self.lock_aquecedor));
        data.push(("caixa_de_som".to_string(), self.lock_caixa_de_som));
        data.push(("televisao".to_string(), self.lock_televisao));
        assert(crate::dispositivos::vista_relatorio(data@) =~= self.relatorio());
        data
    }
}

} // verus!
