use vstd::prelude::*;

verus! {

/// The devices the house controls, in the order in which the controller
/// reports and inspects them.
#[derive(Clone, Copy, Debug, PartialEq, Eq, Structural)]
pub enum Dispositivo {
    Luz,
    Tranca,
    Alarme,
    Janelas,
    Robo,
    Cafeteira,
    ArCondicionado,
    Aquecedor,
    CaixaDeSom,
    Televisao,
}

/// Every device, in reporting order.
pub open spec fn ordem() -> Seq<Dispositivo> {
    seq![
        Dispositivo::Luz,
        Dispositivo::Tranca,
        Dispositivo::Alarme,
        Dispositivo::Janelas,
        Dispositivo::Robo,
        Dispositivo::Cafeteira,
        Dispositivo::ArCondicionado,
        Dispositivo::Aquecedor,
        Dispositivo::CaixaDeSom,
        Dispositivo::Televisao,
    ]
}

/// The name under which a device is reported.
pub open spec fn nome(d: Dispositivo) -> Seq<char> {
    match d {
        Dispositivo::Luz => "luz"@,
        Dispositivo::Tranca => "tranca"@,
        Dispositivo::Alarme => "alarme"@,
        Dispositivo::Janelas => "janelas"@,
        Dispositivo::Robo => "robo"@,
        Dispositivo::Cafeteira => "cafeteira"@,
        Dispositivo::ArCondicionado => "ar_condicionado"@,
        Dispositivo::Aquecedor => "aquecedor"@,
        Dispositivo::CaixaDeSom => "caixa_de_som"@,
        Dispositivo::Televisao => "televisao"@,
    }
}

/// A requested value replaces the current one; no request keeps it.
pub open spec fn aplicar(pedido: Option<bool>, atual: bool) -> bool {
    match pedido {
        Some(v) => v,
        None => atual,
    }
}

/// The value a device takes when `pedido` is applied to its state `atual`.
pub fn valor_pedido(pedido: Option<bool>, atual: bool) -> (v: bool)
    ensures
        v == aplicar(pedido, atual),
{
    match pedido {
        Some(v) => v,
        None => atual,
    }
}

/// A report as plain values: each name with its flag, in order.
pub open spec fn vista_relatorio(r: Seq<(String, bool)>) -> Seq<(Seq<char>, bool)> {
    r.map_values(|p: (String, bool)| (p.0@, p.1))
}

/// A partial update of the devices: `Some(v)` sets a device to `v`,
/// `None` leaves it as it is.
#[derive(Clone, Copy, Debug, PartialEq, Eq, Structural)]
pub struct UpdateData {
    pub luz: Option<bool>,
    pub tranca: Option<bool>,
    pub alarme: Option<bool>,
    pub janelas: Option<bool>,
    pub robo: Option<bool>,
    pub cafeteira: Option<bool>,
    pub ar_condicionado: Option<bool>,
    pub aquecedor: Option<bool>,
    pub caixa_de_som: Option<bool>,
    pub televisao: Option<bool>,
}

impl UpdateData {
    /// What the update asks of device `d`.
    pub open spec fn pedido(self, d: Dispositivo) -> Option<bool> {
        match d {
            Dispositivo::Luz => self.luz,
            Dispositivo::Tranca => self.tranca,
            Dispositivo::Alarme => self.alarme,
            Dispositivo::Janelas => self.janelas,
            Dispositivo::Robo => self.robo,
            Dispositivo::Cafeteira => self.cafeteira,
            Dispositivo::ArCondicionado => self.ar_condicionado,
            Dispositivo::Aquecedor => self.aquecedor,
            Dispositivo::CaixaDeSom => self.caixa_de_som,
            Dispositivo::Televisao => self.televisao,
        }
    }

    /// The first device, in reporting order, that the update names.
    pub open spec fn primeiro_pedido(self) -> Option<Dispositivo> {
        if self.luz is Some {
            Some(Dispositivo::Luz)
        } else if self.tranca is Some {
            Some(Dispositivo::Tranca)
        } else if self.alarme is Some {
            Some(Dispositivo::Alarme)
        } else if self.janelas is Some {
            Some(Dispositivo::Janelas)
        } else if self.robo is Some {
            Some(Dispositivo::Robo)
        } else if self.cafeteira is Some {
            Some(Dispositivo::Cafeteira)
        } else if self.ar_condicionado is Some {
            Some(Dispositivo::ArCondicionado)
        } else if self.aquecedor is Some {
            Some(Dispositivo::Aquecedor)
        } else if self.caixa_de_som is Some {
            Some(Dispositivo::CaixaDeSom)
        } else if self.televisao is Some {
            Some(Dispositivo::Televisao)
        } else {
            None
        }
    }
}

/// A request to switch the house into a named mode.
pub struct ChangeMode {
    pub modo: String,
}

/// The on/off state of every device of the house.
#[derive(Clone, Copy, Debug, PartialEq, Eq, Structural)]
pub struct AutomacaoResidencial {
    pub luz: bool,
    pub tranca: bool,
    pub alarme: bool,
    pub janelas: bool,
    pub robo: bool,
    pub cafeteira: bool,
    pub ar_condicionado: bool,
    pub aquecedor: bool,
    pub caixa_de_som: bool,
    pub televisao: bool,
}

impl AutomacaoResidencial {
    /// The state of device `d`.
    pub open spec fn estado(self, d: Dispositivo) -> bool {
        match d {
            Dispositivo::Luz => self.luz,
            Dispositivo::Tranca => self.tranca,
            Dispositivo::Alarme => self.alarme,
            Dispositivo::Janelas => self.janelas,
            Dispositivo::Robo => self.robo,
            Dispositivo::Cafeteira => self.cafeteira,
            Dispositivo::ArCondicionado => self.ar_condicionado,
            Dispositivo::Aquecedor => self.aquecedor,
            Dispositivo::CaixaDeSom => self.caixa_de_som,
            Dispositivo::Televisao => self.televisao,
        }
    }

    /// The state the house starts in: only the lock and the alarm are on.
    pub open spec fn inicial() -> Self {
        AutomacaoResidencial {
            luz: false,
            tranca: true,
            alarme: true,
            janelas: false,
            robo: false,
            cafeteira: false,
            ar_condicionado: false,
            aquecedor: false,
            caixa_de_som: false,
            televisao: false,
        }
    }

    /// The state after `u` is applied.
    pub open spec fn atualizado(self, u: UpdateData) -> Self {
        AutomacaoResidencial {
            luz: aplicar(u.luz, self.luz),
            tranca: aplicar(u.tranca, self.tranca),
            alarme: aplicar(u.alarme, self.alarme),
            janelas: aplicar(u.janelas, self.janelas),
            robo: aplicar(u.robo, self.robo),
            cafeteira: aplicar(u.cafeteira, self.cafeteira),
            ar_condicionado: aplicar(u.ar_condicionado, self.ar_condicionado),
            aquecedor: aplicar(u.aquecedor, self.aquecedor),
            caixa_de_som: aplicar(u.caixa_de_som, self.caixa_de_som),
            televisao: aplicar(u.televisao, self.televisao),
        }
    }

    /// The report of the devices, each name with its state.
    pub open spec fn relatorio(self) -> Seq<(Seq<char>, bool)> {
        seq![
            ("luz"@, self.luz),
            ("tranca"@, self.tranca),
            ("alarme"@, self.alarme),
            ("janelas"@, self.janelas),
            ("robo"@, self.robo),
            ("cafeteira"@, self.cafeteira),
            ("ar_condicionado"@, self.ar_condicionado),
            ("aquecedor"@, self.aquecedor),
            ("caixa_de_som"@, self.caixa_de_som),
            ("televisao"@, self.televisao),
        ]
    }

    /// Someone is let in: light on, door unlocked, alarm off.
    pub open spec fn com_acesso(self) -> Self {
        AutomacaoResidencial { luz: true, tranca: false, alarme: false, ..self }
    }

    /// The safe state for an empty house.
    pub open spec fn casa_vazia() -> Self {
        AutomacaoResidencial {
            luz: false,
            tranca: true,
            alarme: true,
            janelas: true,
            robo: false,
            cafeteira: false,
            ar_condicionado: false,
            aquecedor: false,
            caixa_de_som: false,
            televisao: false,
        }
    }

    /// Going to sleep: lights, sound, television and robot off, windows shut.
    pub open spec fn para_dormir(self) -> Self {
        AutomacaoResidencial {
            luz: false,
            janelas: true,
            caixa_de_som: false,
            televisao: false,
            robo: false,
            ..self
        }
    }

    /// Waking up: light on, windows open, coffee maker on.
    pub open spec fn para_acordar(self) -> Self {
        AutomacaoResidencial { luz: true, janelas: false, cafeteira: true, ..self }
    }

    /// What the daily routine does at hour `h`.
    pub open spec fn na_hora(self, h: int) -> Self {
        if h >= 22 || h < 6 {
            self.para_dormir()
        } else if h == 6 {
            self.para_acordar()
        } else if h == 7 {
            AutomacaoResidencial { cafeteira: false, ..self }
        } else {
            self
        }
    }

    /// What switching to the mode named `modo` does; an unknown name does nothing.
    pub open spec fn no_modo(self, modo: Seq<char>) -> Self {
        if modo == "dormir"@ {
            self.para_dormir()
        } else if modo == "acordar"@ {
            self.para_acordar()
        } else if modo == "limpar"@ {
            AutomacaoResidencial { robo: true, ..self }
        } else if modo == "trancar"@ {
            AutomacaoResidencial { tranca: true, alarme: true, ..self }
        } else if modo == "destrancar"@ {
            AutomacaoResidencial { tranca: false, alarme: false, ..self }
        } else if modo == "filme"@ {
            AutomacaoResidencial { televisao: true, janelas: true, luz: true, ..self }
        } else if modo == "musica"@ {
            AutomacaoResidencial { caixa_de_som: true, luz: true, ..self }
        } else {
            self
        }
    }

    /// What the thermostat does, given how the temperature compares with the
    /// comfort band: below its minimum, above its minimum, below its maximum.
    pub open spec fn com_termostato(self, abaixo_min: bool, acima_min: bool, abaixo_max: bool) -> Self {
        if abaixo_min {
            AutomacaoResidencial { ar_condicionado: false, aquecedor: true, ..self }
        } else if acima_min && abaixo_max {
            AutomacaoResidencial { ar_condicionado: false, aquecedor: false, ..self }
        } else {
            AutomacaoResidencial { ar_condicionado: true, aquecedor: false, ..self }
        }
    }

    /// Heavy rain shuts the windows; otherwise nothing changes.
    pub open spec fn com_chuva(self, chuva_forte: bool) -> Self {
        if chuva_forte {
            AutomacaoResidencial { janelas: true, ..self }
        } else {
            self
        }
    }

    /// Devices start with the lock and the alarm on, everything else off.
    pub fn new() -> (s: Self)
        ensures
            s == Self::inicial(),
    {
        Self {
            luz: false,
            tranca: true,
            alarme: true,
            janelas: false,
            robo: false,
            cafeteira: false,
            ar_condicionado: false,
            aquecedor: false,
            caixa_de_som: false,
            televisao: false,
        }
    }

    /// Sets each device for which the update carries a value.
    pub fn update(&mut self, updates: UpdateData)
        ensures
            *final(self) == old(self).atualizado(updates),
    {
        self.luz = valor_pedido(updates.luz, self.luz);
        self.tranca = valor_pedido(updates.tranca, self.tranca);
        self.alarme = valor_pedido(updates.alarme, self.alarme);
        self.janelas = valor_pedido(updates.janelas, self.janelas);
        self.robo = valor_pedido(updates.robo, self.robo);
        self.cafeteira = valor_pedido(updates.cafeteira, self.cafeteira);
        self.ar_condicionado = valor_pedido(updates.ar_condicionado, self.ar_condicionado);
        self.aquecedor = valor_pedido(updates.aquecedor, self.aquecedor);
        self.caixa_de_som = valor_pedido(updates.caixa_de_som, self.caixa_de_som);
        self.televisao = valor_pedido(updates.televisao, self.televisao);
    }

    /// Reports every device by name with its state, as a list of
    /// (name, state) pairs whose names are all different (see
    /// `lei_nomes_distintos`); vstd's `HashMap` contracts promise nothing for
    /// `String` keys, so a map would leave the report unstated.
    pub fn return_data(&self) -> (data: Vec<(String, bool)>)
        ensures
            vista_relatorio(data@) == self.relatorio(),
    {
        let mut data: Vec<(String, bool)> = Vec::new();
        data.push(("luz".to_string(), self.luz));
        data.push(("tranca".to_string(), self.tranca));
        data.push(("alarme".to_string(), self.alarme));
        data.push(("janelas".to_string(), self.janelas));
        data.push(("robo".to_string(), self.robo));
        data.push(("cafeteira".to_string(), self.cafeteira));
        data.push(("ar_condicionado".to_string(), self.ar_condicionado));
        data.push(("aquecedor".to_string(), self.aquecedor));
        data.push(("caixa_de_som".to_string(), self.caixa_de_som));
        data.push(("televisao".to_string(), self.televisao));
        assert(vista_relatorio(data@) =~= self.relatorio());
        data
    }

    /// Lets someone in: light on, door unlocked, alarm off.
    pub fn acesso_garantido(&mut self)
        ensures
            *final(self) == old(self).com_acesso(),
    {
        self.luz = true;
        self.tranca = false;
        self.alarme = false;
    }

    /// Puts every device in the safe state for an empty house.
    pub fn fora_de_casa(&mut self)
        ensures
            *final(self) == Self::casa_vazia(),
    {
        self.luz = false;
        self.tranca = true;
        self.alarme = true;
        self.janelas = true;
        self.robo = false;
        self.cafeteira = false;
        self.ar_condicionado = false;
        self.aquecedor = false;
        self.caixa_de_som = false;
        self.televisao = false;
    }

    /// Heating or cooling from how the temperature compares with the comfort
    /// band (`abaixo_min`: below its minimum, `acima_min`: above its minimum,
    /// `abaixo_max`: below its maximum).
    pub fn termostato(&mut self, abaixo_min: bool, acima_min: bool, abaixo_max: bool)
        ensures
            *final(self) == old(self).com_termostato(abaixo_min, acima_min, abaixo_max),
    {
        if abaixo_min {
            self.ar_condicionado = false;
            self.aquecedor = true;
        } else if acima_min && abaixo_max {
            self.ar_condicionado = false;
            self.aquecedor = false;
        } else {
            self.ar_condicionado = true;
            self.aquecedor = false;
        }
    }

    /// Shuts the windows when the rain reaches the limit.
    pub fn precipitacao(&mut self, chuva_forte: bool)
        ensures
            *final(self) == old(self).com_chuva(chuva_forte),
    {
        if chuva_forte {
            self.janelas = true;
        }
    }

    /// The daily routine for the hour `hora_atual`.
    pub fn dormindo_ou_acordado(&mut self, hora_atual: i32)
        ensures
            *final(self) == old(self).na_hora(hora_atual as int),
    {
        if hora_atual >= 22 || hora_atual < 6 {
            self.luz = false;
            self.janelas = true;
            self.caixa_de_som = false;
            self.televisao = false;
            self.robo = false;
        } else if hora_atual == 6 {
            self.luz = true;
            self.janelas = false;
            self.cafeteira = true;
        } else if hora_atual == 7 {
            self.cafeteira = false;
        }
    }

    /// Switches the house into the named mode; an unknown name does nothing.
    pub fn change_mode(&mut self, mode_to_change: ChangeMode)
        ensures
            *final(self) == old(self).no_modo(mode_to_change.modo@),
    {
        let modo = mode_to_change.modo;
        if modo == "dormir".to_string() {
            self.luz = false;
            self.janelas = true;
            self.caixa_de_som = false;
            self.televisao = false;
            self.robo = false;
        } else if modo == "acordar".to_string() {
            self.luz = true;
            self.janelas = false;
            self.cafeteira = true;
        } else if modo == "limpar".to_string() {
            self.robo = true
        } else if modo == "trancar".to_string() {
            self.tranca = true;
            self.alarme = true;
        } else if modo == "destrancar".to_string() {
            self.tranca = false;
            self.alarme = false;
        } else if modo == "filme".to_string() {
            self.televisao = true;
            self.janelas = true;
            self.luz = true;
        } else if modo == "musica".to_string() {
            self.caixa_de_som = true;
            self.luz = true;
        }
    }
}

} // verus!
